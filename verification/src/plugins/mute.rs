//! Mute management commands.
//!
//! Commands for muting and unmuting users.

use vstd::prelude::*;
use crate::plugins::ban::{debug_secs, debug_secs_vec, duration_arg, duration_arg_ok, replied_id, target_of, target_of_msg};
use crate::plugins::warn::target_model;
use crate::plugins::common::{
    CommandMsg, Query, Text, TextModel, args_of, args_vec, plain_text,
    reason_from, reason_from_vec,
};
use crate::text::{chars_of, concat_vec, dec, string_of, u64_dec, views};
use crate::utils::parser::{
    html_escape_vec, mention_vec, parse_duration_secs, spec_html_escape, spec_mention,
    spec_parse_duration,
};

verus! {

#[derive(Debug, Clone, Copy, PartialEq, Eq, Structural)]
pub enum MuteMode {
    /// /mute - optional duration (default forever)
    Normal,
    /// /tmute - requires duration
    Temporary,
    /// /dmute - delete replied message
    DeleteMute,
    /// /smute - silent, delete command
    SilentMute,
    Unmute,
}

/// What a mute command does once it is decided to act.
#[derive(Debug, Clone, PartialEq, Eq)]
pub struct MuteExecution {
    pub target: u64,
    /// Delete the command message first; a failure is ignored.
    pub delete_command: bool,
    /// Delete this message (the replied one); a failure is ignored.
    pub delete_replied: Option<i32>,
    /// `true`: restrict the target to no rights (until `for_secs` from now,
    /// when given); `false`: lift the restrictions.
    pub mute: bool,
    pub for_secs: Option<u64>,
    /// Announce in the chat, as HTML.
    pub announce: Option<Text>,
}

#[derive(Debug, Clone, PartialEq, Eq)]
pub enum MuteOutcome {
    Ignore,
    Ask(Query),
    /// Resolve the target (see `utils::target`) and call again with it.
    ResolveTarget,
    Reply(Text),
    Execute(MuteExecution),
}

pub struct MuteExecModel {
    pub target: u64,
    pub delete_command: bool,
    pub delete_replied: Option<i32>,
    pub mute: bool,
    pub for_secs: Option<u64>,
    pub announce: Option<TextModel>,
}

pub enum MuteModel {
    Ignore,
    Ask(Query),
    ResolveTarget,
    Reply(TextModel),
    Execute(MuteExecModel),
}

impl View for MuteOutcome {
    type V = MuteModel;

    open spec fn view(&self) -> MuteModel {
        match self {
            MuteOutcome::Ignore => MuteModel::Ignore,
            MuteOutcome::Ask(q) => MuteModel::Ask(*q),
            MuteOutcome::ResolveTarget => MuteModel::ResolveTarget,
            MuteOutcome::Reply(t) => MuteModel::Reply(t@),
            MuteOutcome::Execute(e) => MuteModel::Execute(
                MuteExecModel {
                    target: e.target,
                    delete_command: e.delete_command,
                    delete_replied: e.delete_replied,
                    mute: e.mute,
                    for_secs: e.for_secs,
                    announce: match e.announce {
                        Some(t) => Some(t@),
                        None => None,
                    },
                },
            ),
        }
    }
}

/// `😶 <mention> dimute.` with the duration and reason lines when given.
pub open spec fn mute_announce(
    mode: MuteMode,
    id: u64,
    name: Seq<char>,
    secs: Option<nat>,
    reason: Option<Seq<char>>,
) -> Seq<char> {
    let action = if mode == MuteMode::DeleteMute {
        "dimute dan pesan dihapus"@
    } else {
        "dimute"@
    };
    let duration_line = match secs {
        Some(s) => "\nDurasi: "@ + debug_secs(s),
        None => Seq::empty(),
    };
    let reason_line = match reason {
        Some(r) => "\nAlasan: "@ + spec_html_escape(r),
        None => Seq::empty(),
    };
    "😶 "@ + spec_mention(id, name) + " "@ + action + "."@ + duration_line + reason_line
}

/// What the mute command does for `mode` on message `m`, given the answers
/// known so far.
pub open spec fn spec_mute(
    mode: MuteMode,
    m: CommandMsg,
    can_restrict: Option<bool>,
    resolved: Option<Option<(u64, Seq<char>, nat)>>,
    target_is_admin: Option<bool>,
) -> MuteModel {
    if !m.in_group {
        MuteModel::Ignore
    } else {
        match can_restrict {
            None => MuteModel::Ask(Query::CanRestrictMembers),
            Some(false) => MuteModel::Reply(
                TextModel::Plain("❌ Anda tidak memiliki izin untuk membatasi member."@),
            ),
            Some(true) => match target_of(m, resolved) {
                None => MuteModel::ResolveTarget,
                Some(None) => MuteModel::Reply(TextModel::Plain("❌ User tidak ditemukan."@)),
                Some(Some((id, name, start))) => {
                    if mode != MuteMode::Unmute && target_is_admin is None {
                        MuteModel::Ask(Query::TargetIsAdmin(id))
                    } else if mode != MuteMode::Unmute && target_is_admin == Some(true) {
                        MuteModel::Reply(
                            TextModel::Plain(
                                "😏 Kenapa saya harus membisukan seorang admin? Sepertinya itu bukan ide yang bagus."@,
                            ),
                        )
                    } else if mode == MuteMode::Unmute {
                        MuteModel::Execute(
                            MuteExecModel {
                                target: id,
                                delete_command: false,
                                delete_replied: None,
                                mute: false,
                                for_secs: None,
                                announce: Some(
                                    TextModel::Plain("🔊 "@ + spec_mention(id, name) + " diunmute."@),
                                ),
                            },
                        )
                    } else {
                        let args = args_of(m);
                        let parsed = if args.len() > start {
                            spec_parse_duration(args[start])
                        } else {
                            None
                        };
                        if mode == MuteMode::Temporary && parsed is None {
                            MuteModel::Reply(
                                TextModel::Plain(
                                    if args.len() > start {
                                        "❌ Format waktu salah. Contoh: 1h, 30m, 1d"@
                                    } else {
                                        "❌ Tentukan durasi untuk temp mute. Contoh: /tmute @user 1h"@
                                    },
                                ),
                            )
                        } else {
                            let idx = if parsed is Some {
                                start + 1
                            } else {
                                start
                            };
                            MuteModel::Execute(
                                MuteExecModel {
                                    target: id,
                                    delete_command: mode == MuteMode::SilentMute,
                                    delete_replied: if mode == MuteMode::DeleteMute {
                                        replied_id(m)
                                    } else {
                                        None
                                    },
                                    mute: true,
                                    for_secs: match parsed {
                                        Some(n) => Some(n as u64),
                                        None => None,
                                    },
                                    announce: if mode == MuteMode::SilentMute {
                                        None
                                    } else {
                                        Some(
                                            TextModel::Plain(
                                                mute_announce(mode, id, name, parsed, reason_from(args, idx)),
                                            ),
                                        )
                                    },
                                },
                            )
                        }
                    }
                },
            },
        }
    }
}

fn mute_announce_vec(
    mode: MuteMode,
    id: u64,
    name: &Vec<char>,
    secs: Option<u64>,
    reason: Option<Vec<char>>,
) -> (r: Vec<char>)
    ensures
        r@ == mute_announce(
            mode,
            id,
            name@,
            match secs {
                Some(s) => Some(s as nat),
                None => None,
            },
            match reason {
                Some(v) => Some(v@),
                None => None,
            },
        ),
{
    let action = if mode == MuteMode::DeleteMute {
        chars_of("dimute dan pesan dihapus")
    } else {
        chars_of("dimute")
    };
    let duration_line = match secs {
        Some(s) => concat_vec(&chars_of("\nDurasi: "), &debug_secs_vec(s)),
        None => Vec::new(),
    };
    let reason_line = match &reason {
        Some(r) => concat_vec(&chars_of("\nAlasan: "), &html_escape_vec(r)),
        None => Vec::new(),
    };
    let a = concat_vec(&chars_of("😶 "), &mention_vec(id, name));
    let b = concat_vec(&a, &chars_of(" "));
    let c = concat_vec(&b, &action);
    let d = concat_vec(&c, &chars_of("."));
    let e = concat_vec(&d, &duration_line);
    concat_vec(&e, &reason_line)
}

/// Decides the mute command `mode` on message `m`. The caller answers each
/// `Ask` and calls again with the answer filled in.
pub fn mute_action(
    mode: MuteMode,
    m: &CommandMsg,
    can_restrict: Option<bool>,
    target: Option<Option<(u64, String, usize)>>,
    target_is_admin: Option<bool>,
) -> (r: MuteOutcome)
    requires
        mode != MuteMode::Unmute ==> duration_arg_ok(*m, can_restrict, target_model(target), target_is_admin),
    ensures
        r@ == spec_mute(mode, *m, can_restrict, target_model(target), target_is_admin),
{
    if !m.in_group {
        return MuteOutcome::Ignore;
    }
    match can_restrict {
        None => {
            return MuteOutcome::Ask(Query::CanRestrictMembers);
        },
        Some(false) => {
            return MuteOutcome::Reply(plain_text("❌ Anda tidak memiliki izin untuk membatasi member."));
        },
        Some(true) => {},
    }
    let (id, name, start) = match target_of_msg(m, &target) {
        None => {
            return MuteOutcome::ResolveTarget;
        },
        Some(None) => {
            return MuteOutcome::Reply(plain_text("❌ User tidak ditemukan."));
        },
        Some(Some(t)) => t,
    };
    if mode != MuteMode::Unmute {
        match target_is_admin {
            None => {
                return MuteOutcome::Ask(Query::TargetIsAdmin(id));
            },
            Some(true) => {
                return MuteOutcome::Reply(
                    plain_text(
                        "😏 Kenapa saya harus membisukan seorang admin? Sepertinya itu bukan ide yang bagus.",
                    ),
                );
            },
            Some(false) => {},
        }
    }
    if mode == MuteMode::Unmute {
        let a = concat_vec(&chars_of("🔊 "), &mention_vec(id, &name));
        let t = concat_vec(&a, &chars_of(" diunmute."));
        return MuteOutcome::Execute(
            MuteExecution {
                target: id,
                delete_command: false,
                delete_replied: None,
                mute: false,
                for_secs: None,
                announce: Some(Text::Plain(string_of(&t))),
            },
        );
    }
    let args = args_vec(m);
    let parsed = if args.len() > start {
        assert(duration_arg(*m, can_restrict, target_model(target), target_is_admin) == Some(views(args@)[start as int]));
        parse_duration_secs(&args[start])
    } else {
        None
    };
    if mode == MuteMode::Temporary && parsed.is_none() {
        if args.len() > start {
            return MuteOutcome::Reply(plain_text("❌ Format waktu salah. Contoh: 1h, 30m, 1d"));
        } else {
            return MuteOutcome::Reply(
                plain_text("❌ Tentukan durasi untuk temp mute. Contoh: /tmute @user 1h"),
            );
        }
    }
    let idx = if parsed.is_some() {
        start + 1
    } else {
        start
    };
    let reason = reason_from_vec(&args, idx);
    let announce = if mode == MuteMode::SilentMute {
        None
    } else {
        Some(Text::Plain(string_of(&mute_announce_vec(mode, id, &name, parsed, reason))))
    };
    MuteOutcome::Execute(
        MuteExecution {
            target: id,
            delete_command: mode == MuteMode::SilentMute,
            delete_replied: if mode == MuteMode::DeleteMute {
                match &m.reply {
                    Some(rp) => Some(rp.msg_id),
                    None => None,
                }
            } else {
                None
            },
            mute: true,
            for_secs: parsed,
            announce,
        },
    )
}

/// /mute: mute the target, for a while when a duration is given.
pub fn mute_command(
    m: &CommandMsg,
    can_restrict: Option<bool>,
    target: Option<Option<(u64, String, usize)>>,
    target_is_admin: Option<bool>,
) -> (r: MuteOutcome)
    requires
        duration_arg_ok(*m, can_restrict, target_model(target), target_is_admin),
    ensures
        r@ == spec_mute(MuteMode::Normal, *m, can_restrict, target_model(target), target_is_admin),
{
    mute_action(MuteMode::Normal, m, can_restrict, target, target_is_admin)
}

/// /tmute: mute the target for the given duration.
pub fn tmute_command(
    m: &CommandMsg,
    can_restrict: Option<bool>,
    target: Option<Option<(u64, String, usize)>>,
    target_is_admin: Option<bool>,
) -> (r: MuteOutcome)
    requires
        duration_arg_ok(*m, can_restrict, target_model(target), target_is_admin),
    ensures
        r@ == spec_mute(MuteMode::Temporary, *m, can_restrict, target_model(target), target_is_admin),
{
    mute_action(MuteMode::Temporary, m, can_restrict, target, target_is_admin)
}

/// /dmute: delete the replied message and mute its sender.
pub fn dmute_command(
    m: &CommandMsg,
    can_restrict: Option<bool>,
    target: Option<Option<(u64, String, usize)>>,
    target_is_admin: Option<bool>,
) -> (r: MuteOutcome)
    requires
        duration_arg_ok(*m, can_restrict, target_model(target), target_is_admin),
    ensures
        r@ == spec_mute(MuteMode::DeleteMute, *m, can_restrict, target_model(target), target_is_admin),
{
    mute_action(MuteMode::DeleteMute, m, can_restrict, target, target_is_admin)
}

/// /smute: mute silently, deleting the command.
pub fn smute_command(
    m: &CommandMsg,
    can_restrict: Option<bool>,
    target: Option<Option<(u64, String, usize)>>,
    target_is_admin: Option<bool>,
) -> (r: MuteOutcome)
    requires
        duration_arg_ok(*m, can_restrict, target_model(target), target_is_admin),
    ensures
        r@ == spec_mute(MuteMode::SilentMute, *m, can_restrict, target_model(target), target_is_admin),
{
    mute_action(MuteMode::SilentMute, m, can_restrict, target, target_is_admin)
}

/// /unmute: lift the target's mute.
pub fn unmute_command(
    m: &CommandMsg,
    can_restrict: Option<bool>,
    target: Option<Option<(u64, String, usize)>>,
    target_is_admin: Option<bool>,
) -> (r: MuteOutcome)
    ensures
        r@ == spec_mute(MuteMode::Unmute, *m, can_restrict, target_model(target), target_is_admin),
{
    mute_action(MuteMode::Unmute, m, can_restrict, target, target_is_admin)
}

} // verus!
