//! Help section: Approval.

use vstd::prelude::*;
use crate::markup::Keyboard;
use crate::plugins::help::{back_keyboard, back_keyboard_model};

verus! {

/// The section's text, as HTML.
pub open spec fn section_text() -> Seq<char> {
    "<b>✅ Bantuan: Approval</b>\n\n\
    Sistem approval untuk bypass antiflood.\n\n\
    <b>Perintah:</b>\n\
    • <code>/approve [@user]</code> - Approve user\n\
    • <code>/unapprove [@user]</code> - Hapus approval\n\
    • <code>/approved</code> - Lihat daftar user approved\n\
    • <code>/approval</code> - Cek status approval Anda\n\
    • <code>/unapproveall</code> - Hapus semua approval\n\n\
    <b>Keuntungan Approved:</b>\n\
    • Tidak terkena antiflood\n\
    • Bebas dari batasan spam\n\n\
    <b>Target:</b>\n\
    Reply ke pesan, atau gunakan @username / ID"@
}

pub fn get_text() -> (r: String)
    ensures
        r@ == section_text(),
{
    "<b>✅ Bantuan: Approval</b>\n\n\
    Sistem approval untuk bypass antiflood.\n\n\
    <b>Perintah:</b>\n\
    • <code>/approve [@user]</code> - Approve user\n\
    • <code>/unapprove [@user]</code> - Hapus approval\n\
    • <code>/approved</code> - Lihat daftar user approved\n\
    • <code>/approval</code> - Cek status approval Anda\n\
    • <code>/unapproveall</code> - Hapus semua approval\n\n\
    <b>Keuntungan Approved:</b>\n\
    • Tidak terkena antiflood\n\
    • Bebas dari batasan spam\n\n\
    <b>Target:</b>\n\
    Reply ke pesan, atau gunakan @username / ID".to_owned()
}

/// One button back to the help menu.
pub fn get_keyboard() -> (k: Keyboard)
    ensures
        k@ == back_keyboard_model(),
{
    back_keyboard()
}

} // verus!
