//! Help section: Antiflood.

use vstd::prelude::*;
use crate::markup::Keyboard;
use crate::plugins::help::{back_keyboard, back_keyboard_model};

verus! {

/// The section's text, as HTML.
pub open spec fn section_text() -> Seq<char> {
    "<b>🌊 Bantuan: Antiflood</b>\n\n\
    Proteksi otomatis dari spam/flood pesan.\n\n\
    <b>Perintah:</b>\n\
    • <code>/antiflood</code> - Lihat status\n\
    • <code>/setflood [jumlah]</code> - Atur batas pesan\n\
    • <code>/setflood off</code> - Nonaktifkan\n\
    • <code>/setfloodpenalty [mode]</code> - Atur hukuman\n\n\
    <b>Mode Hukuman:</b>\n\
    • <code>warn</code> - Peringatan saja\n\
    • <code>mute</code> - Mute permanen\n\
    • <code>kick</code> - Kick dari grup\n\
    • <code>ban</code> - Ban permanen\n\
    • <code>tban [durasi]</code> - Ban sementara\n\n\
    <b>Cara Kerja:</b>\n\
    Jika user mengirim lebih dari X pesan dalam waktu singkat, hukuman diterapkan.\n\n\
    <b>Bypass:</b>\n\
    Admin dan user yang di-approve tidak terkena antiflood."@
}

pub fn get_text() -> (r: String)
    ensures
        r@ == section_text(),
{
    "<b>🌊 Bantuan: Antiflood</b>\n\n\
    Proteksi otomatis dari spam/flood pesan.\n\n\
    <b>Perintah:</b>\n\
    • <code>/antiflood</code> - Lihat status\n\
    • <code>/setflood [jumlah]</code> - Atur batas pesan\n\
    • <code>/setflood off</code> - Nonaktifkan\n\
    • <code>/setfloodpenalty [mode]</code> - Atur hukuman\n\n\
    <b>Mode Hukuman:</b>\n\
    • <code>warn</code> - Peringatan saja\n\
    • <code>mute</code> - Mute permanen\n\
    • <code>kick</code> - Kick dari grup\n\
    • <code>ban</code> - Ban permanen\n\
    • <code>tban [durasi]</code> - Ban sementara\n\n\
    <b>Cara Kerja:</b>\n\
    Jika user mengirim lebih dari X pesan dalam waktu singkat, hukuman diterapkan.\n\n\
    <b>Bypass:</b>\n\
    Admin dan user yang di-approve tidak terkena antiflood.".to_owned()
}

/// One button back to the help menu.
pub fn get_keyboard() -> (k: Keyboard)
    ensures
        k@ == back_keyboard_model(),
{
    back_keyboard()
}

} // verus!
