//! Help section: Rules.

use vstd::prelude::*;
use crate::markup::Keyboard;
use crate::plugins::help::{back_keyboard, back_keyboard_model};

verus! {

/// The section's text, as HTML.
pub open spec fn section_text() -> Seq<char> {
    "<b>📜 Bantuan: Rules</b>\n\n\
    Atur peraturan grup.\n\n\
    <b>Perintah:</b>\n\
    • <code>/rules</code> - Lihat peraturan grup\n\
    • <code>/setrules</code> - Atur peraturan (reply ke pesan)\n\
    • <code>/clearrules</code> - Hapus peraturan\n\
    • <code>/setrulesprivate on/off</code> - Kirim rules ke PM\n\n\
    <b>Format:</b>\n\
    Mendukung tombol dan placeholder seperti welcome.\n\
    Gunakan <code>{button:Teks|URL}</code> untuk tombol.\n\n\
    <b>Integrasi:</b>\n\
    Gunakan <code>{rules}</code> di welcome/notes untuk menyertakan rules."@
}

pub fn get_text() -> (r: String)
    ensures
        r@ == section_text(),
{
    "<b>📜 Bantuan: Rules</b>\n\n\
    Atur peraturan grup.\n\n\
    <b>Perintah:</b>\n\
    • <code>/rules</code> - Lihat peraturan grup\n\
    • <code>/setrules</code> - Atur peraturan (reply ke pesan)\n\
    • <code>/clearrules</code> - Hapus peraturan\n\
    • <code>/setrulesprivate on/off</code> - Kirim rules ke PM\n\n\
    <b>Format:</b>\n\
    Mendukung tombol dan placeholder seperti welcome.\n\
    Gunakan <code>{button:Teks|URL}</code> untuk tombol.\n\n\
    <b>Integrasi:</b>\n\
    Gunakan <code>{rules}</code> di welcome/notes untuk menyertakan rules.".to_owned()
}

/// One button back to the help menu.
pub fn get_keyboard() -> (k: Keyboard)
    ensures
        k@ == back_keyboard_model(),
{
    back_keyboard()
}

} // verus!
