//! The boundary to the `ludus` console core.
//!
//! Everything in this file is trusted: the contracts restate what the
//! sources of `ludus` show, and nothing here proves them. A value of one of
//! the core's types is opaque: it is carried around and handed back, never
//! looked into.

use vstd::prelude::*;
use crate::cartridge::{
    character_bytes, has_magic, is_complete, mapper_supported, program_bytes, CHR_BANK_LEN,
    PRG_BANK_LEN,
};
use crate::controller::ControllerState;

verus! {

/// The console: processor, picture unit, sound unit and memory.
#[verifier::external_type_specification]
#[verifier::external_body]
pub struct ExConsole(ludus::Console);

/// A cartridge as read from an image.
#[verifier::external_type_specification]
#[verifier::external_body]
pub struct ExCart(ludus::Cart);

/// Why an image could not be read.
#[verifier::external_type_specification]
#[verifier::external_body]
pub struct ExCartReadingError(ludus::CartReadingError);

/// The cartridge that `ludus::Cart::from_bytes` reads from an image that it
/// accepts.
pub uninterp spec fn cart_of(image: Seq<u8>) -> ludus::Cart;

/// The number of bytes of program memory in a cartridge.
pub uninterp spec fn program_len(cart: ludus::Cart) -> nat;

/// The number of bytes of character memory in a cartridge.
pub uninterp spec fn character_len(cart: ludus::Cart) -> nat;

/// The console that `ludus::Console::new` builds around a cartridge.
pub uninterp spec fn console_of(cart: ludus::Cart, sample_rate: u32) -> ludus::Console;

/// The console after `ludus::Console::update_controller` has been told which
/// buttons are held.
pub uninterp spec fn with_buttons(console: ludus::Console, buttons: ControllerState)
    -> ludus::Console;

/// `ludus::NES_WIDTH`, the number of pixels in a row of the picture.
/// The contract claims the value that `ludus` declares, 256.
#[verifier::external_body]
pub(crate) fn screen_width() -> (w: usize)
    ensures
        w == 256,
{
    ludus::NES_WIDTH
}

/// `ludus::NES_HEIGHT`, the number of rows of the picture.
/// The contract claims the value that `ludus` declares, 240.
#[verifier::external_body]
pub(crate) fn screen_height() -> (h: usize)
    ensures
        h == 240,
{
    ludus::NES_HEIGHT
}

/// `ludus::Cart::from_bytes`. It indexes the image without checking its
/// length, so only complete images may be passed. The contract claims that
/// the image is accepted exactly if it starts with the format's four bytes
/// and names a mapper that the core knows, and that the result depends on
/// the bytes alone. Of the cartridge it claims that it gets 16 KiB of
/// program memory for every program bank that the header announces, and
/// 8 KiB of character memory for every character bank, or 8 KiB where the
/// header announces none.
#[verifier::external_body]
pub(crate) fn read_cart(image: &[u8]) -> (cart: Result<ludus::Cart, ludus::CartReadingError>)
    requires
        is_complete(image@),
    ensures
        cart is Ok <==> (has_magic(image@) && mapper_supported(image@)),
        cart matches Ok(c) ==> c == cart_of(image@),
        cart matches Ok(c) ==> program_len(c) == program_bytes(image@),
        cart matches Ok(c) ==> character_len(c) == character_bytes(image@),
{
    ludus::Cart::from_bytes(image)
}

/// `ludus::Console::new`. It divides by the sample rate, and it looks for
/// the last bank of program memory and of character memory, so the rate must
/// not be zero and the cartridge must hold a bank of each. The contract
/// claims that the console depends on the cartridge and the rate alone.
#[verifier::external_body]
pub(crate) fn new_console(cart: ludus::Cart, sample_rate: u32) -> (console: ludus::Console)
    requires
        sample_rate > 0,
        program_len(cart) >= PRG_BANK_LEN,
        character_len(cart) >= CHR_BANK_LEN,
    ensures
        console == console_of(cart, sample_rate),
{
    ludus::Console::new(cart, sample_rate)
}

/// `ludus::Console::update_controller`. The contract claims that the console
/// afterwards depends on the console before and the buttons alone.
#[verifier::external_body]
pub(crate) fn update_controller(console: &mut ludus::Console, buttons: ControllerState)
    ensures
        *final(console) == with_buttons(*old(console), buttons),
{
    console.update_controller(ludus::ButtonState {
        a: buttons.a,
        b: buttons.b,
        select: buttons.select,
        start: buttons.start,
        up: buttons.up,
        down: buttons.down,
        left: buttons.left,
        right: buttons.right,
    })
}

} // verus!
