//! Help section: AFK.

use vstd::prelude::*;
use crate::markup::Keyboard;
use crate::plugins::help::{back_keyboard, back_keyboard_model};

verus! {

/// The section's text, as HTML.
pub open spec fn section_text() -> Seq<char> {
    "<b>💤 Bantuan: AFK</b>\n\n\
    Fitur AFK (Away From Keyboard) memberi tahu user lain bahwa Anda sedang tidak aktif ketika mereka me-reply atau me-mention Anda.\n\n\
    <b>Perintah:</b>\n\
    • <code>/afk [alasan]</code> - Set status AFK\n\
    • <code>/brb [alasan]</code> - Alias untuk /afk\n\n\
    <b>Contoh:</b>\n\
    <code>/afk Sedang tidur</code>\n\
    <code>/brb Makan siang</code>\n\n\
    <b>Cara Kembali:</b>\n\
    Cukup kirim pesan apa saja di grup, status AFK akan otomatis hilang."@
}

pub fn get_text() -> (r: String)
    ensures
        r@ == section_text(),
{
    "<b>💤 Bantuan: AFK</b>\n\n\
    Fitur AFK (Away From Keyboard) memberi tahu user lain bahwa Anda sedang tidak aktif ketika mereka me-reply atau me-mention Anda.\n\n\
    <b>Perintah:</b>\n\
    • <code>/afk [alasan]</code> - Set status AFK\n\
    • <code>/brb [alasan]</code> - Alias untuk /afk\n\n\
    <b>Contoh:</b>\n\
    <code>/afk Sedang tidur</code>\n\
    <code>/brb Makan siang</code>\n\n\
    <b>Cara Kembali:</b>\n\
    Cukup kirim pesan apa saja di grup, status AFK akan otomatis hilang.".to_owned()
}

/// One button back to the help menu.
pub fn get_keyboard() -> (k: Keyboard)
    ensures
        k@ == back_keyboard_model(),
{
    back_keyboard()
}

} // verus!
