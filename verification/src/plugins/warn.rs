//! Warning command handlers.
//!
//! Commands for managing user warnings in groups.

use vstd::prelude::*;
use crate::plugins::common::{
    CommandMsg, Fragment, FragmentModel, Query, Text, TextModel, args_of, args_vec, key_text,
    key_text1, missing_permission, missing_permission_text, params_model, plain_text,
    push_fragment, push_plain, reason_from, reason_from_vec,
};
use crate::plugins::ban::replied_id;
use crate::text::{chars_of, concat_vec, dec, dec_int, i64_dec, string_of, u64_dec};
use crate::utils::parser::{
    format_duration_full, html_escape_vec, spec_format_duration_full, spec_html_escape,
};

verus! {

/// What reaching the warning limit brings.
#[derive(Debug, Clone, Copy, PartialEq, Eq, Structural)]
pub enum WarnMode {
    Ban,
    Mute,
    Kick,
    TBan,
    TMute,
}

/// A chat's warning settings.
#[derive(Debug, Clone, Copy, PartialEq, Eq)]
pub struct WarnConfig {
    pub limit: u32,
    pub mode: WarnMode,
    /// Length of the temporary penalties.
    pub action_duration_secs: u64,
    /// How long a warning counts; `None`: forever.
    pub warn_time_secs: Option<u64>,
}

#[derive(Debug, Clone, Copy, PartialEq, Eq, Structural)]
pub enum WarnAction {
    Normal,
    /// /dwarn - delete their message
    DeleteMsg,
    /// /swarn - delete command
    Silent,
}

/// The user a warning goes to, and what is done before it is recorded.
#[derive(Debug, Clone, PartialEq, Eq)]
pub struct WarnGo {
    pub target: u64,
    pub name: String,
    pub reason: Option<String>,
    /// Delete the replied message (a failure is ignored).
    pub delete_replied: Option<i32>,
    /// Delete the command message (a failure is ignored).
    pub delete_command: bool,
}

/// First stage of a warn command.
#[derive(Debug, Clone, PartialEq, Eq)]
pub enum WarnStart {
    Ignore,
    Ask(Query),
    /// Resolve the target (see `utils::target`) and call again with it.
    ResolveTarget,
    /// Reply to the command with this text and stop.
    Reply(Text),
    /// Record a warning (it gives the new count) and read the chat's
    /// settings, then call `warn_verdict`.
    Proceed(WarnGo),
}

pub struct WarnGoModel {
    pub target: u64,
    pub name: Seq<char>,
    pub reason: Option<Seq<char>>,
    pub delete_replied: Option<i32>,
    pub delete_command: bool,
}

pub enum WarnStartModel {
    Ignore,
    Ask(Query),
    ResolveTarget,
    Reply(TextModel),
    Proceed(WarnGoModel),
}

impl View for WarnStart {
    type V = WarnStartModel;

    open spec fn view(&self) -> WarnStartModel {
        match self {
            WarnStart::Ignore => WarnStartModel::Ignore,
            WarnStart::Ask(q) => WarnStartModel::Ask(*q),
            WarnStart::ResolveTarget => WarnStartModel::ResolveTarget,
            WarnStart::Reply(t) => WarnStartModel::Reply(t@),
            WarnStart::Proceed(g) => WarnStartModel::Proceed(
                WarnGoModel {
                    target: g.target,
                    name: g.name@,
                    reason: match g.reason {
                        Some(r) => Some(r@),
                        None => None,
                    },
                    delete_replied: g.delete_replied,
                    delete_command: g.delete_command,
                },
            ),
        }
    }
}

pub open spec fn target_model(t: Option<Option<(u64, String, usize)>>) -> Option<Option<(u64, Seq<char>, nat)>> {
    match t {
        Some(Some((id, n, k))) => Some(Some((id, n@, k as nat))),
        Some(None) => Some(None),
        None => None,
    }
}

/// What the warn command does, given the answers known so far: the
/// sender's right to restrict members, the resolved target (`Some(None)`:
/// none found), and whether the target is an admin. Silent warns refuse
/// without a word.
pub open spec fn spec_warn_start(
    action: WarnAction,
    m: CommandMsg,
    can_restrict: Option<bool>,
    target: Option<Option<(u64, Seq<char>, nat)>>,
    target_is_admin: Option<bool>,
) -> WarnStartModel {
    let silent = action == WarnAction::Silent;
    if !m.in_group {
        WarnStartModel::Ignore
    } else {
        match can_restrict {
            None => WarnStartModel::Ask(Query::CanRestrictMembers),
            Some(false) => if silent {
                WarnStartModel::Ignore
            } else {
                WarnStartModel::Reply(missing_permission("CanRestrictMembers"@))
            },
            Some(true) => match target {
                None => WarnStartModel::ResolveTarget,
                Some(None) => if silent {
                    WarnStartModel::Ignore
                } else {
                    WarnStartModel::Reply(TextModel::Key("warn.error_no_target"@, Seq::empty()))
                },
                Some(Some((id, name, skip))) => match target_is_admin {
                    None => WarnStartModel::Ask(Query::TargetIsAdmin(id)),
                    Some(true) => if silent {
                        WarnStartModel::Ignore
                    } else {
                        WarnStartModel::Reply(TextModel::Key("warn.error_admin_target"@, Seq::empty()))
                    },
                    Some(false) => WarnStartModel::Proceed(
                        WarnGoModel {
                            target: id,
                            name,
                            reason: reason_from(args_of(m), skip as int),
                            delete_replied: if action == WarnAction::DeleteMsg {
                                replied_id(m)
                            } else {
                                None
                            },
                            delete_command: silent,
                        },
                    ),
                },
            },
        }
    }
}

pub fn warn_action(
    action: WarnAction,
    m: &CommandMsg,
    can_restrict: Option<bool>,
    target: Option<Option<(u64, String, usize)>>,
    target_is_admin: Option<bool>,
) -> (r: WarnStart)
    ensures
        r@ == spec_warn_start(action, *m, can_restrict, target_model(target), target_is_admin),
{
    let silent = action == WarnAction::Silent;
    if !m.in_group {
        return WarnStart::Ignore;
    }
    match can_restrict {
        None => {
            return WarnStart::Ask(Query::CanRestrictMembers);
        },
        Some(false) => {
            return if silent {
                WarnStart::Ignore
            } else {
                WarnStart::Reply(missing_permission_text("CanRestrictMembers"))
            };
        },
        Some(true) => {},
    }
    let (id, name, skip) = match target {
        None => {
            return WarnStart::ResolveTarget;
        },
        Some(None) => {
            return if silent {
                WarnStart::Ignore
            } else {
                WarnStart::Reply(key_text("warn.error_no_target"))
            };
        },
        Some(Some(t)) => t,
    };
    match target_is_admin {
        None => {
            return WarnStart::Ask(Query::TargetIsAdmin(id));
        },
        Some(true) => {
            return if silent {
                WarnStart::Ignore
            } else {
                WarnStart::Reply(key_text("warn.error_admin_target"))
            };
        },
        Some(false) => {},
    }
    let args = args_vec(m);
    let reason = match reason_from_vec(&args, skip) {
        Some(v) => Some(string_of(&v)),
        None => None,
    };
    WarnStart::Proceed(
        WarnGo {
            target: id,
            name,
            reason,
            delete_replied: if action == WarnAction::DeleteMsg {
                match &m.reply {
                    Some(rp) => Some(rp.msg_id),
                    None => None,
                }
            } else {
                None
            },
            delete_command: silent,
        },
    )
}

/// The penalty applied when the limit is reached.
#[derive(Debug, Clone, Copy, PartialEq, Eq, Structural)]
pub enum Penalty {
    Ban,
    /// Restrict to no rights for this many seconds from now.
    MuteFor(u64),
    /// Ban, then unban (an unban failure is ignored).
    Kick,
    /// Ban for this many seconds from now.
    BanFor(u64),
}

/// Seconds in 366 days: how long the `Mute` mode mutes.
pub open spec fn mute_penalty_secs() -> u64 {
    31622400
}

pub open spec fn spec_penalty(mode: WarnMode, secs: u64) -> Penalty {
    match mode {
        WarnMode::Ban => Penalty::Ban,
        WarnMode::Mute => Penalty::MuteFor(mute_penalty_secs()),
        WarnMode::Kick => Penalty::Kick,
        WarnMode::TBan => Penalty::BanFor(secs),
        WarnMode::TMute => Penalty::MuteFor(secs),
    }
}

/// The text telling which penalty was applied.
pub open spec fn penalty_fragment(mode: WarnMode, name: Seq<char>, secs: u64) -> FragmentModel {
    let pname = ("{name}"@, spec_html_escape(name));
    let pdur = ("{duration}"@, spec_format_duration_full(secs as nat));
    match mode {
        WarnMode::Ban => FragmentModel::Key("warn.penalty_ban"@, seq![pname]),
        WarnMode::Mute => FragmentModel::Key("warn.penalty_mute"@, seq![pname]),
        WarnMode::Kick => FragmentModel::Key("warn.penalty_kick"@, seq![pname]),
        WarnMode::TBan => FragmentModel::Key("warn.penalty_tban"@, seq![pname, pdur]),
        WarnMode::TMute => FragmentModel::Key("warn.penalty_tmute"@, seq![pname, pdur]),
    }
}

/// The second stage of a warn command.
#[derive(Debug, Clone, PartialEq, Eq)]
pub enum WarnVerdict {
    /// The limit is reached: apply the penalty, then clear the user's
    /// warnings when `reset_warnings` is set; announce (unless silent) with
    /// the text for the penalty's success or failure.
    LimitReached {
        penalty: Penalty,
        reset_warnings: bool,
        announce_applied: Option<Text>,
        announce_failed: Option<Text>,
    },
    /// Announce the warning (unless silent) as HTML, with a button (label,
    /// callback data) that removes it.
    Warned { announce: Option<(Text, Text, String)> },
}

pub enum WarnVerdictModel {
    LimitReached {
        penalty: Penalty,
        reset_warnings: bool,
        announce_applied: Option<TextModel>,
        announce_failed: Option<TextModel>,
    },
    Warned { announce: Option<(TextModel, TextModel, Seq<char>)> },
}

impl View for WarnVerdict {
    type V = WarnVerdictModel;

    open spec fn view(&self) -> WarnVerdictModel {
        match self {
            WarnVerdict::LimitReached { penalty, reset_warnings, announce_applied, announce_failed } => {
                WarnVerdictModel::LimitReached {
                    penalty: *penalty,
                    reset_warnings: *reset_warnings,
                    announce_applied: match announce_applied {
                        Some(t) => Some(t@),
                        None => None,
                    },
                    announce_failed: match announce_failed {
                        Some(t) => Some(t@),
                        None => None,
                    },
                }
            },
            WarnVerdict::Warned { announce } => WarnVerdictModel::Warned {
                announce: match announce {
                    Some((t, l, d)) => Some((t@, l@, d@)),
                    None => None,
                },
            },
        }
    }
}

/// `warn_remove:{chat}:{target}`: the data of the remove-warning button.
pub open spec fn remove_callback_data(chat_id: i64, target: u64) -> Seq<char> {
    "warn_remove:"@ + dec_int(chat_id as int) + ":"@ + dec(target as nat)
}

/// How many warnings the user keeps after a verdict on `count` warnings:
/// none when the verdict clears them, else all.
pub open spec fn warnings_kept(v: WarnVerdictModel, count: u64) -> nat {
    match v {
        WarnVerdictModel::LimitReached { reset_warnings, .. } => if reset_warnings {
            0
        } else {
            count as nat
        },
        WarnVerdictModel::Warned { .. } => count as nat,
    }
}

/// The verdict after the warning was recorded: `count` is the user's new
/// warning count, `config` the chat's settings.
pub open spec fn spec_warn_verdict(
    action: WarnAction,
    chat_id: i64,
    target: u64,
    name: Seq<char>,
    reason: Option<Seq<char>>,
    count: u64,
    config: WarnConfig,
) -> WarnVerdictModel {
    let silent = action == WarnAction::Silent;
    let pid = ("{id}"@, FragmentModel::Plain(dec(target as nat)));
    let pname = ("{name}"@, FragmentModel::Plain(spec_html_escape(name)));
    let pcount = ("{count}"@, FragmentModel::Plain(dec(count as nat)));
    let plimit = ("{limit}"@, FragmentModel::Plain(dec(config.limit as nat)));
    if (#[verifier::truncate] (count as u32)) >= config.limit {
        WarnVerdictModel::LimitReached {
            penalty: spec_penalty(config.mode, config.action_duration_secs),
            reset_warnings: true,
            announce_applied: if silent {
                None
            } else {
                Some(
                    TextModel::Key(
                        "warn.limit_reached"@,
                        seq![
                            pid,
                            pname,
                            pcount,
                            plimit,
                            ("{penalty}"@, penalty_fragment(config.mode, name, config.action_duration_secs)),
                        ],
                    ),
                )
            },
            announce_failed: if silent {
                None
            } else {
                Some(
                    TextModel::Key(
                        "warn.limit_reached"@,
                        seq![
                            pid,
                            pname,
                            pcount,
                            plimit,
                            ("{penalty}"@, FragmentModel::Key("warn.error_penalty_failed"@, Seq::empty())),
                        ],
                    ),
                )
            },
        }
    } else {
        WarnVerdictModel::Warned {
            announce: if silent {
                None
            } else {
                let preason = (
                    "{reason}"@,
                    match reason {
                        Some(r) => FragmentModel::Plain(spec_html_escape(r)),
                        None => FragmentModel::EscapedKey("warn.no_reason"@),
                    },
                );
                Some(
                    (
                        TextModel::Key("warn.warning_header"@, seq![pid, pname, pcount, plimit, preason]),
                        TextModel::Key("warn.button_remove"@, Seq::empty()),
                        remove_callback_data(chat_id, target),
                    ),
                )
            },
        }
    }
}

fn penalty_fragment_of(mode: WarnMode, name: &Vec<char>, secs: u64) -> (f: Fragment)
    ensures
        crate::plugins::common::fragment_model(f) == penalty_fragment(mode, name@, secs),
{
    let key = match mode {
        WarnMode::Ban => "warn.penalty_ban",
        WarnMode::Mute => "warn.penalty_mute",
        WarnMode::Kick => "warn.penalty_kick",
        WarnMode::TBan => "warn.penalty_tban",
        WarnMode::TMute => "warn.penalty_tmute",
    };
    let mut ps: Vec<(String, String)> = Vec::new();
    ps.push(("{name}".to_owned(), string_of(&html_escape_vec(name))));
    if mode == WarnMode::TBan || mode == WarnMode::TMute {
        ps.push(("{duration}".to_owned(), format_duration_full(secs)));
    }
    let f = Fragment::Key(key.to_owned(), ps);
    assert(crate::plugins::common::pairs_model(ps@) =~= match penalty_fragment(mode, name@, secs) {
        FragmentModel::Key(_, p) => p,
        _ => Seq::empty(),
    });
    f
}

fn warn_params(target: u64, name: &Vec<char>, count: u64, limit: u32) -> (ps: Vec<(String, Fragment)>)
    ensures
        params_model(ps@) == seq![
            ("{id}"@, FragmentModel::Plain(dec(target as nat))),
            ("{name}"@, FragmentModel::Plain(spec_html_escape(name@))),
            ("{count}"@, FragmentModel::Plain(dec(count as nat))),
            ("{limit}"@, FragmentModel::Plain(dec(limit as nat))),
        ],
{
    let mut ps: Vec<(String, Fragment)> = Vec::new();
    push_plain(&mut ps, "{id}", u64_dec(target));
    push_plain(&mut ps, "{name}", html_escape_vec(name));
    push_plain(&mut ps, "{count}", u64_dec(count));
    push_plain(&mut ps, "{limit}", u64_dec(limit as u64));
    assert(params_model(ps@) =~= seq![
        ("{id}"@, FragmentModel::Plain(dec(target as nat))),
        ("{name}"@, FragmentModel::Plain(spec_html_escape(name@))),
        ("{count}"@, FragmentModel::Plain(dec(count as nat))),
        ("{limit}"@, FragmentModel::Plain(dec(limit as nat))),
    ]);
    ps
}

pub fn warn_verdict(
    action: WarnAction,
    chat_id: i64,
    target: u64,
    name: &String,
    reason: &Option<String>,
    count: u64,
    config: &WarnConfig,
) -> (r: WarnVerdict)
    ensures
        r@ == spec_warn_verdict(
            action,
            chat_id,
            target,
            name@,
            match reason {
                Some(s) => Some(s@),
                None => None,
            },
            count,
            *config,
        ),
{
    let silent = action == WarnAction::Silent;
    let name_v = chars_of(name.as_str());
    if (#[verifier::truncate] (count as u32)) >= config.limit {
        let penalty = match config.mode {
            WarnMode::Ban => Penalty::Ban,
            WarnMode::Mute => Penalty::MuteFor(31622400),
            WarnMode::Kick => Penalty::Kick,
            WarnMode::TBan => Penalty::BanFor(config.action_duration_secs),
            WarnMode::TMute => Penalty::MuteFor(config.action_duration_secs),
        };
        if silent {
            return WarnVerdict::LimitReached {
                penalty,
                reset_warnings: true,
                announce_applied: None,
                announce_failed: None,
            };
        }
        let mut ok = warn_params(target, &name_v, count, config.limit);
        push_fragment(&mut ok, "{penalty}", penalty_fragment_of(config.mode, &name_v, config.action_duration_secs));
        let mut failed = warn_params(target, &name_v, count, config.limit);
        let empty: Vec<(String, String)> = Vec::new();
        assert(crate::plugins::common::pairs_model(empty@) =~= Seq::<(Seq<char>, Seq<char>)>::empty());
        push_fragment(&mut failed, "{penalty}", Fragment::Key("warn.error_penalty_failed".to_owned(), empty));
        let applied = Text::Key("warn.limit_reached".to_owned(), ok);
        let failed_t = Text::Key("warn.limit_reached".to_owned(), failed);
        let ghost pid = ("{id}"@, FragmentModel::Plain(dec(target as nat)));
        let ghost pname = ("{name}"@, FragmentModel::Plain(spec_html_escape(name@)));
        let ghost pcount = ("{count}"@, FragmentModel::Plain(dec(count as nat)));
        let ghost plimit = ("{limit}"@, FragmentModel::Plain(dec(config.limit as nat)));
        assert(params_model(ok@) =~= seq![pid, pname, pcount, plimit, ("{penalty}"@, penalty_fragment(config.mode, name@, config.action_duration_secs))]);
        assert(params_model(failed@) =~= seq![pid, pname, pcount, plimit, ("{penalty}"@, FragmentModel::Key("warn.error_penalty_failed"@, Seq::empty()))]);
        WarnVerdict::LimitReached {
            penalty,
            reset_warnings: true,
            announce_applied: Some(applied),
            announce_failed: Some(failed_t),
        }
    } else {
        if silent {
            return WarnVerdict::Warned { announce: None };
        }
        let mut ps = warn_params(target, &name_v, count, config.limit);
        let reason_f = match reason {
            Some(r) => Fragment::Plain(string_of(&html_escape_vec(&chars_of(r.as_str())))),
            None => Fragment::EscapedKey("warn.no_reason".to_owned()),
        };
        push_fragment(&mut ps, "{reason}", reason_f);
        let data = concat_vec(
            &concat_vec(&concat_vec(&chars_of("warn_remove:"), &i64_dec(chat_id)), &chars_of(":")),
            &u64_dec(target),
        );
        let t = Text::Key("warn.warning_header".to_owned(), ps);
        let ghost pid = ("{id}"@, FragmentModel::Plain(dec(target as nat)));
        let ghost pname = ("{name}"@, FragmentModel::Plain(spec_html_escape(name@)));
        let ghost pcount = ("{count}"@, FragmentModel::Plain(dec(count as nat)));
        let ghost plimit = ("{limit}"@, FragmentModel::Plain(dec(config.limit as nat)));
        let ghost preason = (
            "{reason}"@,
            match reason {
                Some(r) => FragmentModel::Plain(spec_html_escape(r@)),
                None => FragmentModel::EscapedKey("warn.no_reason"@),
            },
        );
        assert(params_model(ps@) =~= seq![pid, pname, pcount, plimit, preason]);
        WarnVerdict::Warned {
            announce: Some((t, key_text("warn.button_remove"), string_of(&data))),
        }
    }
}

} // verus!

verus! {

impl WarnMode {
    /// The mode's name, as the help lists the modes.
    pub open spec fn spec_name(self) -> Seq<char> {
        match self {
            WarnMode::Ban => "ban"@,
            WarnMode::Mute => "mute"@,
            WarnMode::Kick => "kick"@,
            WarnMode::TBan => "tban"@,
            WarnMode::TMute => "tmute"@,
        }
    }

    /// The mode's description, as the help gives it.
    pub open spec fn spec_description(self) -> Seq<char> {
        match self {
            WarnMode::Ban => "Ban permanen"@,
            WarnMode::Mute => "Mute permanen"@,
            WarnMode::Kick => "Kick dari grup"@,
            WarnMode::TBan => "Ban sementara"@,
            WarnMode::TMute => "Mute sementara"@,
        }
    }

    pub fn as_str(&self) -> (r: &'static str)
        ensures
            r@ == self.spec_name(),
    {
        match self {
            WarnMode::Ban => "ban",
            WarnMode::Mute => "mute",
            WarnMode::Kick => "kick",
            WarnMode::TBan => "tban",
            WarnMode::TMute => "tmute",
        }
    }

    pub fn description(&self) -> (r: &'static str)
        ensures
            r@ == self.spec_description(),
    {
        match self {
            WarnMode::Ban => "Ban permanen",
            WarnMode::Mute => "Mute permanen",
            WarnMode::Kick => "Kick dari grup",
            WarnMode::TBan => "Ban sementara",
            WarnMode::TMute => "Mute sementara",
        }
    }

    /// The mode named `s` (case-insensitively).
    pub fn from_str(s: &str) -> (r: Option<WarnMode>)
        ensures
            match r {
                Some(m) => crate::text::lower_eq(s@, m.spec_name()),
                None => forall|m: WarnMode| !crate::text::lower_eq(s@, #[trigger] m.spec_name()),
            },
    {
        let v = chars_of(s);
        proof {
            reveal_strlit("ban");
            reveal_strlit("mute");
            reveal_strlit("kick");
            reveal_strlit("tban");
            reveal_strlit("tmute");
        }
        if crate::text::lower_eq_vec(&v, &chars_of("ban")) {
            Some(WarnMode::Ban)
        } else if crate::text::lower_eq_vec(&v, &chars_of("mute")) {
            Some(WarnMode::Mute)
        } else if crate::text::lower_eq_vec(&v, &chars_of("kick")) {
            Some(WarnMode::Kick)
        } else if crate::text::lower_eq_vec(&v, &chars_of("tban")) {
            Some(WarnMode::TBan)
        } else if crate::text::lower_eq_vec(&v, &chars_of("tmute")) {
            Some(WarnMode::TMute)
        } else {
            assert forall|m: WarnMode| !crate::text::lower_eq(s@, #[trigger] m.spec_name()) by {
                match m {
                    WarnMode::Ban => {},
                    WarnMode::Mute => {},
                    WarnMode::Kick => {},
                    WarnMode::TBan => {},
                    WarnMode::TMute => {},
                }
            }
            None
        }
    }
}

/// Which removal a command makes.
#[derive(Debug, Clone, Copy, PartialEq, Eq, Structural)]
pub enum RemovalKind {
    /// /rmwarn: the latest warning.
    LastWarning,
    /// /resetwarn: all of a user's warnings.
    AllOfUser,
}

#[derive(Debug, Clone, PartialEq, Eq)]
pub enum RemovalStart {
    Ignore,
    Ask(Query),
    ResolveTarget,
    Reply(Text),
    /// Remove the warning(s) of this user (id, name) and call
    /// `removal_reply` with the result.
    Remove(u64, String),
}

pub enum RemovalStartModel {
    Ignore,
    Ask(Query),
    ResolveTarget,
    Reply(TextModel),
    Remove(u64, Seq<char>),
}

impl View for RemovalStart {
    type V = RemovalStartModel;

    open spec fn view(&self) -> RemovalStartModel {
        match self {
            RemovalStart::Ignore => RemovalStartModel::Ignore,
            RemovalStart::Ask(q) => RemovalStartModel::Ask(*q),
            RemovalStart::ResolveTarget => RemovalStartModel::ResolveTarget,
            RemovalStart::Reply(t) => RemovalStartModel::Reply(t@),
            RemovalStart::Remove(id, n) => RemovalStartModel::Remove(*id, n@),
        }
    }
}

pub open spec fn spec_removal_start(
    kind: RemovalKind,
    m: CommandMsg,
    can_restrict: Option<bool>,
    target: Option<Option<(u64, Seq<char>, nat)>>,
) -> RemovalStartModel {
    if !m.in_group {
        RemovalStartModel::Ignore
    } else {
        match can_restrict {
            None => RemovalStartModel::Ask(Query::CanRestrictMembers),
            Some(false) => RemovalStartModel::Reply(
                if kind == RemovalKind::LastWarning {
                    missing_permission("CanRestrictMembers"@)
                } else {
                    TextModel::Plain("❌ Anda tidak memiliki izin untuk menghapus peringatan."@)
                },
            ),
            Some(true) => match target {
                None => RemovalStartModel::ResolveTarget,
                Some(None) => RemovalStartModel::Reply(
                    TextModel::Key(
                        if kind == RemovalKind::LastWarning {
                            "warn.error_no_target_remove"@
                        } else {
                            "warn.error_no_target_reset"@
                        },
                        Seq::empty(),
                    ),
                ),
                Some(Some((id, name, _))) => RemovalStartModel::Remove(id, name),
            },
        }
    }
}

pub fn decide_warn_removal(
    kind: RemovalKind,
    m: &CommandMsg,
    can_restrict: Option<bool>,
    target: Option<Option<(u64, String, usize)>>,
) -> (r: RemovalStart)
    ensures
        r@ == spec_removal_start(kind, *m, can_restrict, target_model(target)),
{
    if !m.in_group {
        return RemovalStart::Ignore;
    }
    match can_restrict {
        None => RemovalStart::Ask(Query::CanRestrictMembers),
        Some(false) => RemovalStart::Reply(
            if kind == RemovalKind::LastWarning {
                missing_permission_text("CanRestrictMembers")
            } else {
                plain_text("❌ Anda tidak memiliki izin untuk menghapus peringatan.")
            },
        ),
        Some(true) => match target {
            None => RemovalStart::ResolveTarget,
            Some(None) => RemovalStart::Reply(
                if kind == RemovalKind::LastWarning {
                    key_text("warn.error_no_target_remove")
                } else {
                    key_text("warn.error_no_target_reset")
                },
            ),
            Some(Some((id, name, _))) => RemovalStart::Remove(id, name),
        },
    }
}

/// The reply after a removal, and whether it is HTML: `count` and `limit`
/// are the user's remaining count and the chat's limit (read only after a
/// removal of the latest warning).
pub open spec fn spec_removal_reply(
    kind: RemovalKind,
    target: u64,
    name: Seq<char>,
    removed: bool,
    count: u64,
    limit: u32,
) -> (TextModel, bool) {
    let pid = ("{id}"@, FragmentModel::Plain(dec(target as nat)));
    let pname = ("{name}"@, FragmentModel::Plain(spec_html_escape(name)));
    if !removed {
        (TextModel::Key("warn.user_no_warnings_simple"@, Seq::empty()), false)
    } else if kind == RemovalKind::LastWarning {
        (
            TextModel::Key(
                "warn.removed_last"@,
                seq![
                    pid,
                    pname,
                    ("{count}"@, FragmentModel::Plain(dec(count as nat))),
                    ("{limit}"@, FragmentModel::Plain(dec(limit as nat))),
                ],
            ),
            true,
        )
    } else {
        (TextModel::Key("warn.reset_success"@, seq![pid, pname]), true)
    }
}

pub fn removal_reply(kind: RemovalKind, target: u64, name: &String, removed: bool, count: u64, limit: u32) -> (r: (Text, bool))
    ensures
        (r.0@, r.1) == spec_removal_reply(kind, target, name@, removed, count, limit),
{
    if !removed {
        return (key_text("warn.user_no_warnings_simple"), false);
    }
    let name_v = chars_of(name.as_str());
    if kind == RemovalKind::LastWarning {
        let ps = warn_params(target, &name_v, count, limit);
        (Text::Key("warn.removed_last".to_owned(), ps), true)
    } else {
        let mut ps: Vec<(String, Fragment)> = Vec::new();
        push_plain(&mut ps, "{id}", u64_dec(target));
        push_plain(&mut ps, "{name}", html_escape_vec(&name_v));
        let t = Text::Key("warn.reset_success".to_owned(), ps);
        assert(params_model(ps@) =~= seq![
            ("{id}"@, FragmentModel::Plain(dec(target as nat))),
            ("{name}"@, FragmentModel::Plain(spec_html_escape(name_v@))),
        ]);
        (t, true)
    }
}

/// `/resetallwarns`: in a group, for a sender who may promote members,
/// clears every warning of the chat. `cleared` is the number of users
/// whose warnings were cleared, once that is done.
#[derive(Debug, Clone, PartialEq, Eq)]
pub enum ClearAllOutcome {
    Ignore,
    Ask(Query),
    Reply(Text),
    /// Clear all warnings, then call again with the number of users cleared.
    Clear,
    /// Reply with this text as HTML.
    Done(Text),
}

pub enum ClearAllModel {
    Ignore,
    Ask(Query),
    Reply(TextModel),
    Clear,
    Done(TextModel),
}

impl View for ClearAllOutcome {
    type V = ClearAllModel;

    open spec fn view(&self) -> ClearAllModel {
        match self {
            ClearAllOutcome::Ignore => ClearAllModel::Ignore,
            ClearAllOutcome::Ask(q) => ClearAllModel::Ask(*q),
            ClearAllOutcome::Reply(t) => ClearAllModel::Reply(t@),
            ClearAllOutcome::Clear => ClearAllModel::Clear,
            ClearAllOutcome::Done(t) => ClearAllModel::Done(t@),
        }
    }
}

pub open spec fn spec_clear_all(m: CommandMsg, can_promote: Option<bool>, cleared: Option<u64>) -> ClearAllModel {
    if !m.in_group {
        ClearAllModel::Ignore
    } else {
        match can_promote {
            None => ClearAllModel::Ask(Query::CanPromoteMembers),
            Some(false) => ClearAllModel::Reply(missing_permission("CanPromoteMembers"@)),
            Some(true) => match cleared {
                None => ClearAllModel::Clear,
                Some(n) => ClearAllModel::Done(
                    TextModel::Key("warn.reset_all_group"@, seq![("{count}"@, FragmentModel::Plain(dec(n as nat)))]),
                ),
            },
        }
    }
}

pub fn decide_clear_all_warns(m: &CommandMsg, can_promote: Option<bool>, cleared: Option<u64>) -> (r: ClearAllOutcome)
    ensures
        r@ == spec_clear_all(*m, can_promote, cleared),
{
    if !m.in_group {
        return ClearAllOutcome::Ignore;
    }
    match can_promote {
        None => ClearAllOutcome::Ask(Query::CanPromoteMembers),
        Some(false) => ClearAllOutcome::Reply(missing_permission_text("CanPromoteMembers")),
        Some(true) => match cleared {
            None => ClearAllOutcome::Clear,
            Some(n) => ClearAllOutcome::Done(key_text1("warn.reset_all_group", "{count}", u64_dec(n))),
        },
    }
}

/// How long warnings count: the formatted time, or "permanent".
pub open spec fn validity_fragment(warn_time: Option<u64>) -> FragmentModel {
    match warn_time {
        Some(s) => FragmentModel::Plain(spec_format_duration_full(s as nat)),
        None => FragmentModel::Key("warn.permanent_no_expire"@, Seq::empty()),
    }
}

fn validity_fragment_of(warn_time: Option<u64>) -> (f: Fragment)
    ensures
        crate::plugins::common::fragment_model(f) == validity_fragment(warn_time),
{
    match warn_time {
        Some(s) => Fragment::Plain(format_duration_full(s)),
        None => {
            let empty: Vec<(String, String)> = Vec::new();
            assert(crate::plugins::common::pairs_model(empty@) =~= Seq::<(Seq<char>, Seq<char>)>::empty());
            Fragment::Key("warn.permanent_no_expire".to_owned(), empty)
        },
    }
}

/// `/warnings`: the chat's settings, as HTML.
pub open spec fn spec_warn_settings(config: WarnConfig) -> TextModel {
    TextModel::Key(
        "warn.settings_header"@,
        seq![
            ("{limit}"@, FragmentModel::Plain(dec(config.limit as nat))),
            ("{mode}"@, FragmentModel::Plain(config.mode.spec_name())),
            ("{desc}"@, FragmentModel::Plain(config.mode.spec_description())),
            ("{duration}"@, FragmentModel::Plain(spec_format_duration_full(config.action_duration_secs as nat))),
            ("{validity}"@, validity_fragment(config.warn_time_secs)),
        ],
    )
}

pub fn warn_settings_text(config: &WarnConfig) -> (t: Text)
    ensures
        t@ == spec_warn_settings(*config),
{
    let mut ps: Vec<(String, Fragment)> = Vec::new();
    push_plain(&mut ps, "{limit}", u64_dec(config.limit as u64));
    push_plain(&mut ps, "{mode}", chars_of(config.mode.as_str()));
    push_plain(&mut ps, "{desc}", chars_of(config.mode.description()));
    push_plain(&mut ps, "{duration}", chars_of(format_duration_full(config.action_duration_secs).as_str()));
    push_fragment(&mut ps, "{validity}", validity_fragment_of(config.warn_time_secs));
    let t = Text::Key("warn.settings_header".to_owned(), ps);
    assert(params_model(ps@) =~= match spec_warn_settings(*config) {
        TextModel::Key(_, p) => p,
        _ => Seq::empty(),
    });
    t
}

/// /warnings: in groups, the chat's warning settings (HTML).
pub fn warnings_command(m: &CommandMsg, config: &WarnConfig) -> (r: Option<Text>)
    ensures
        match r {
            Some(t) => m.in_group && t@ == spec_warn_settings(*config),
            None => !m.in_group,
        },
{
    if m.in_group {
        Some(warn_settings_text(config))
    } else {
        None
    }
}

} // verus!

verus! {

/// Which setting a command changes.
#[derive(Debug, Clone, Copy, PartialEq, Eq, Structural)]
pub enum WarnSetting {
    /// /warnmode
    Mode,
    /// /warnlimit
    Limit,
    /// /warntime
    Time,
}

/// The decision of a settings command.
#[derive(Debug, Clone, PartialEq, Eq)]
pub enum SettingOutcome {
    Ignore,
    Ask(Query),
    /// Read the chat's settings and call again with them.
    LoadConfig,
    /// Reply with the text (as HTML when the flag is set).
    Reply(Text, bool),
    /// Save these settings, then reply with the text (HTML when set).
    Save(WarnConfig, Text, bool),
}

pub enum SettingModel {
    Ignore,
    Ask(Query),
    LoadConfig,
    Reply(TextModel, bool),
    Save(WarnConfig, TextModel, bool),
}

impl View for SettingOutcome {
    type V = SettingModel;

    open spec fn view(&self) -> SettingModel {
        match self {
            SettingOutcome::Ignore => SettingModel::Ignore,
            SettingOutcome::Ask(q) => SettingModel::Ask(*q),
            SettingOutcome::LoadConfig => SettingModel::LoadConfig,
            SettingOutcome::Reply(t, h) => SettingModel::Reply(t@, *h),
            SettingOutcome::Save(c, t, h) => SettingModel::Save(*c, t@, *h),
        }
    }
}

pub open spec fn mode_params(mode: WarnMode) -> Seq<(Seq<char>, FragmentModel)> {
    seq![
        ("{mode}"@, FragmentModel::Plain(mode.spec_name())),
        ("{desc}"@, FragmentModel::Plain(mode.spec_description())),
    ]
}

pub open spec fn mode_named(s: Seq<char>) -> Option<WarnMode> {
    if crate::text::lower_eq(s, "ban"@) {
        Some(WarnMode::Ban)
    } else if crate::text::lower_eq(s, "mute"@) {
        Some(WarnMode::Mute)
    } else if crate::text::lower_eq(s, "kick"@) {
        Some(WarnMode::Kick)
    } else if crate::text::lower_eq(s, "tban"@) {
        Some(WarnMode::TBan)
    } else if crate::text::lower_eq(s, "tmute"@) {
        Some(WarnMode::TMute)
    } else {
        None
    }
}

/// What a settings command does, given the sender's right to restrict
/// members and the chat's settings once read.
pub open spec fn spec_setting(
    setting: WarnSetting,
    m: CommandMsg,
    can_restrict: Option<bool>,
    config: Option<WarnConfig>,
) -> SettingModel {
    let args = args_of(m);
    if !m.in_group {
        SettingModel::Ignore
    } else {
        match can_restrict {
            None => SettingModel::Ask(Query::CanRestrictMembers),
            Some(false) => SettingModel::Reply(
                if setting == WarnSetting::Time {
                    TextModel::Plain("❌ Anda tidak memiliki izin untuk mengubah pengaturan."@)
                } else {
                    missing_permission("CanRestrictMembers"@)
                },
                false,
            ),
            Some(true) => match setting {
                WarnSetting::Mode => if args.len() == 0 {
                    match config {
                        None => SettingModel::LoadConfig,
                        Some(c) => SettingModel::Reply(TextModel::Key("warn.mode_current"@, mode_params(c.mode)), true),
                    }
                } else {
                    match mode_named(args[0]) {
                        Some(mode) => match config {
                            None => SettingModel::LoadConfig,
                            Some(c) => SettingModel::Save(
                                WarnConfig { mode, ..c },
                                TextModel::Key("warn.mode_set"@, mode_params(mode)),
                                true,
                            ),
                        },
                        None => SettingModel::Reply(TextModel::Key("warn.mode_invalid"@, Seq::empty()), false),
                    }
                },
                WarnSetting::Limit => if args.len() == 0 {
                    match config {
                        None => SettingModel::LoadConfig,
                        Some(c) => SettingModel::Reply(
                            TextModel::Key("warn.limit_current"@, seq![("{limit}"@, FragmentModel::Plain(dec(c.limit as nat)))]),
                            true,
                        ),
                    }
                } else {
                    match crate::text::parse_unsigned(args[0], u32::MAX as nat) {
                        Some(limit) => if !(1 <= limit <= 100) {
                            SettingModel::Reply(TextModel::Key("warn.error_limit_range"@, Seq::empty()), false)
                        } else {
                            match config {
                                None => SettingModel::LoadConfig,
                                Some(c) => SettingModel::Save(
                                    WarnConfig { limit: limit as u32, ..c },
                                    TextModel::Key("warn.limit_set"@, seq![("{limit}"@, FragmentModel::Plain(dec(limit)))]),
                                    true,
                                ),
                            }
                        },
                        None => SettingModel::Reply(TextModel::Key("warn.error_number_invalid"@, Seq::empty()), false),
                    }
                },
                WarnSetting::Time => if args.len() == 0 {
                    match config {
                        None => SettingModel::LoadConfig,
                        Some(c) => SettingModel::Reply(
                            TextModel::Key("warn.time_usage"@, seq![("{time}"@, validity_fragment(c.warn_time_secs))]),
                            true,
                        ),
                    }
                } else if crate::text::lower_eq(args[0], "off"@) {
                    match config {
                        None => SettingModel::LoadConfig,
                        Some(c) => SettingModel::Save(
                            WarnConfig { warn_time_secs: None, ..c },
                            TextModel::Key("warn.time_set_permanent"@, Seq::empty()),
                            false,
                        ),
                    }
                } else {
                    match crate::utils::parser::spec_parse_duration(args[0]) {
                        Some(secs) => match config {
                            None => SettingModel::LoadConfig,
                            Some(c) => SettingModel::Save(
                                WarnConfig { warn_time_secs: Some(secs as u64), ..c },
                                TextModel::Key(
                                    "warn.time_set"@,
                                    seq![("{time}"@, FragmentModel::Plain(spec_format_duration_full(secs)))],
                                ),
                                true,
                            ),
                        },
                        None => SettingModel::Reply(TextModel::Key("warn.error_time_format"@, Seq::empty()), false),
                    }
                },
            },
        }
    }
}

fn mode_text(key: &str, mode: WarnMode) -> (t: Text)
    ensures
        t@ == TextModel::Key(key@, mode_params(mode)),
{
    let mut ps: Vec<(String, Fragment)> = Vec::new();
    push_plain(&mut ps, "{mode}", chars_of(mode.as_str()));
    push_plain(&mut ps, "{desc}", chars_of(mode.description()));
    let t = Text::Key(key.to_owned(), ps);
    assert(params_model(ps@) =~= mode_params(mode));
    t
}

/// /warntime gets as far as reading a duration: in a group, for a sender
/// who may restrict members, with a first argument other than `off`.
pub open spec fn warntime_reads_duration(m: CommandMsg, can_restrict: Option<bool>) -> bool {
    m.in_group && can_restrict == Some(true) && args_of(m).len() > 0 && !crate::text::lower_eq(
        args_of(m)[0],
        "off"@,
    )
}

/// Whether /warntime, where it reads a duration, reads it without
/// panicking.
pub fn warntime_duration_fits(m: &CommandMsg, can_restrict: Option<bool>) -> (b: bool)
    ensures
        b == (warntime_reads_duration(*m, can_restrict) ==> crate::utils::parser::duration_input_ok(
            args_of(*m)[0],
        )),
{
    if m.in_group && can_restrict == Some(true) {
        let args = args_vec(m);
        if args.len() > 0 {
            assert(crate::text::views(args@)[0] == args@[0]@);
            if !crate::text::lower_eq_vec(&args[0], &chars_of("off")) {
                return crate::utils::parser::duration_input_checked(&args[0]);
            }
        }
    }
    true
}

pub fn decide_warn_setting(
    setting: WarnSetting,
    m: &CommandMsg,
    can_restrict: Option<bool>,
    config: Option<WarnConfig>,
) -> (r: SettingOutcome)
    requires
        setting == WarnSetting::Time && warntime_reads_duration(*m, can_restrict)
            ==> crate::utils::parser::duration_input_ok(args_of(*m)[0]),
    ensures
        r@ == spec_setting(setting, *m, can_restrict, config),
{
    if !m.in_group {
        return SettingOutcome::Ignore;
    }
    match can_restrict {
        None => {
            return SettingOutcome::Ask(Query::CanRestrictMembers);
        },
        Some(false) => {
            return SettingOutcome::Reply(
                if setting == WarnSetting::Time {
                    plain_text("❌ Anda tidak memiliki izin untuk mengubah pengaturan.")
                } else {
                    missing_permission_text("CanRestrictMembers")
                },
                false,
            );
        },
        Some(true) => {},
    }
    let args = args_vec(m);
    proof {
        reveal_strlit("ban");
        reveal_strlit("mute");
        reveal_strlit("kick");
        reveal_strlit("tban");
        reveal_strlit("tmute");
        reveal_strlit("off");
    }
    match setting {
        WarnSetting::Mode => {
            if args.len() == 0 {
                return match config {
                    None => SettingOutcome::LoadConfig,
                    Some(c) => SettingOutcome::Reply(mode_text("warn.mode_current", c.mode), true),
                };
            }
            let name = string_of(&args[0]);
            match WarnMode::from_str(name.as_str()) {
                Some(mode) => {
                    assert(mode_named(args_of(*m)[0]) == Some(mode)) by {
                        assert(args_of(*m)[0] == args@[0]@);
                    }
                    match config {
                        None => SettingOutcome::LoadConfig,
                        Some(c) => SettingOutcome::Save(WarnConfig { mode, ..c }, mode_text("warn.mode_set", mode), true),
                    }
                },
                None => {
                    assert(mode_named(args_of(*m)[0]) is None) by {
                        assert(!crate::text::lower_eq(name@, WarnMode::Ban.spec_name()));
                        assert(!crate::text::lower_eq(name@, WarnMode::Mute.spec_name()));
                        assert(!crate::text::lower_eq(name@, WarnMode::Kick.spec_name()));
                        assert(!crate::text::lower_eq(name@, WarnMode::TBan.spec_name()));
                        assert(!crate::text::lower_eq(name@, WarnMode::TMute.spec_name()));
                    }
                    SettingOutcome::Reply(key_text("warn.mode_invalid"), false)
                },
            }
        },
        WarnSetting::Limit => {
            if args.len() == 0 {
                return match config {
                    None => SettingOutcome::LoadConfig,
                    Some(c) => SettingOutcome::Reply(
                        key_text1("warn.limit_current", "{limit}", u64_dec(c.limit as u64)),
                        true,
                    ),
                };
            }
            match crate::text::parse_u32_vec(&args[0]) {
                Some(limit) => if !(1 <= limit && limit <= 100) {
                    SettingOutcome::Reply(key_text("warn.error_limit_range"), false)
                } else {
                    match config {
                        None => SettingOutcome::LoadConfig,
                        Some(c) => SettingOutcome::Save(
                            WarnConfig { limit, ..c },
                            key_text1("warn.limit_set", "{limit}", u64_dec(limit as u64)),
                            true,
                        ),
                    }
                },
                None => SettingOutcome::Reply(key_text("warn.error_number_invalid"), false),
            }
        },
        WarnSetting::Time => {
            if args.len() == 0 {
                return match config {
                    None => SettingOutcome::LoadConfig,
                    Some(c) => {
                        let mut ps: Vec<(String, Fragment)> = Vec::new();
                        push_fragment(&mut ps, "{time}", validity_fragment_of(c.warn_time_secs));
                        assert(params_model(ps@) =~= seq![("{time}"@, validity_fragment(c.warn_time_secs))]);
                        SettingOutcome::Reply(Text::Key("warn.time_usage".to_owned(), ps), true)
                    },
                };
            }
            if crate::text::lower_eq_vec(&args[0], &chars_of("off")) {
                return match config {
                    None => SettingOutcome::LoadConfig,
                    Some(c) => SettingOutcome::Save(
                        WarnConfig { warn_time_secs: None, ..c },
                        key_text("warn.time_set_permanent"),
                        false,
                    ),
                };
            }
            assert(crate::utils::parser::duration_input_ok(crate::text::views(args@)[0]));
            match crate::utils::parser::parse_duration_secs(&args[0]) {
                Some(secs) => match config {
                    None => SettingOutcome::LoadConfig,
                    Some(c) => SettingOutcome::Save(
                        WarnConfig { warn_time_secs: Some(secs), ..c },
                        key_text1("warn.time_set", "{time}", chars_of(format_duration_full(secs).as_str())),
                        true,
                    ),
                },
                None => SettingOutcome::Reply(key_text("warn.error_time_format"), false),
            }
        },
    }
}

} // verus!

verus! {

/// A recorded warning, as the store lists it.
#[derive(Debug, Clone, PartialEq, Eq)]
pub struct WarnEntry {
    pub reason: Option<String>,
    /// The warning is older than the chat's warning time.
    pub expired: bool,
}

pub open spec fn reason_fragment(reason: Option<Seq<char>>) -> FragmentModel {
    match reason {
        Some(r) => FragmentModel::Plain(spec_html_escape(r)),
        None => FragmentModel::EscapedKey("warn.no_reason"@),
    }
}

pub open spec fn entry_reason(w: WarnEntry) -> Option<Seq<char>> {
    match w.reason {
        Some(r) => Some(r@),
        None => None,
    }
}

/// `N. reason` lines for the warnings that have not expired, `N` counting
/// every warning from 1.
pub open spec fn warn_lines(ws: Seq<WarnEntry>) -> Seq<FragmentModel>
    decreases ws.len(),
{
    if ws.len() == 0 {
        Seq::empty()
    } else {
        warn_lines(ws.drop_last()) + if ws.last().expired {
            Seq::empty()
        } else {
            seq![
                FragmentModel::Plain(dec(ws.len()) + ". "@),
                reason_fragment(entry_reason(ws.last())),
                FragmentModel::Plain("\n"@),
            ]
        }
    }
}

/// `/warns`: whose warnings to show: the resolved target, else the sender.
pub open spec fn spec_warns_subject(
    m: CommandMsg,
    target: Option<(u64, Seq<char>, nat)>,
) -> Option<(u64, Seq<char>)> {
    match target {
        Some((id, name, _)) => Some((id, name)),
        None => match m.from {
            Some(s) => Some((s.id, s.first_name@)),
            None => None,
        },
    }
}

pub fn warns_subject(m: &CommandMsg, target: Option<(u64, String, usize)>) -> (r: Option<(u64, String)>)
    ensures
        match r {
            Some((id, n)) => spec_warns_subject(*m, match target { Some((i, n, k)) => Some((i, n@, k as nat)), None => None }) == Some((id, n@)),
            None => spec_warns_subject(*m, match target { Some((i, n, k)) => Some((i, n@, k as nat)), None => None }) is None,
        },
{
    match target {
        Some((id, name, _)) => Some((id, name)),
        None => match &m.from {
            Some(s) => Some((s.id, s.first_name.clone())),
            None => None,
        },
    }
}

/// /warns: in groups, the user whose warnings are listed (the resolved
/// target, else the sender); the caller answers with `warns_text`.
pub fn warns_command(m: &CommandMsg, target: Option<(u64, String, usize)>) -> (r: Option<(u64, String)>)
    ensures
        match r {
            Some((id, n)) => m.in_group && spec_warns_subject(*m, match target { Some((i, n, k)) => Some((i, n@, k as nat)), None => None }) == Some((id, n@)),
            None => !m.in_group || spec_warns_subject(*m, match target { Some((i, n, k)) => Some((i, n@, k as nat)), None => None }) is None,
        },
{
    if m.in_group {
        warns_subject(m, target)
    } else {
        None
    }
}

/// The `/warns` reply (HTML): `count` is the user's active warning count,
/// `warnings` the user's recorded warnings, `limit` the chat's limit.
pub open spec fn spec_warns_text(
    id: u64,
    name: Seq<char>,
    count: u64,
    limit: u32,
    warnings: Seq<WarnEntry>,
) -> TextModel {
    let pid = ("{id}"@, dec(id as nat));
    let pname = ("{name}"@, spec_html_escape(name));
    if count == 0 {
        TextModel::Key(
            "warn.user_no_warnings"@,
            seq![("{id}"@, FragmentModel::Plain(pid.1)), ("{name}"@, FragmentModel::Plain(pname.1))],
        )
    } else {
        TextModel::Concat(
            seq![
                FragmentModel::Key(
                    "warn.user_warnings_header"@,
                    seq![pid, pname, ("{count}"@, dec(count as nat)), ("{limit}"@, dec(limit as nat))],
                ),
            ] + warn_lines(warnings),
        )
    }
}

pub fn warns_text(id: u64, name: &String, count: u64, limit: u32, warnings: &Vec<WarnEntry>) -> (t: Text)
    ensures
        t@ == spec_warns_text(id, name@, count, limit, warnings@),
{
    let name_v = chars_of(name.as_str());
    if count == 0 {
        let mut ps: Vec<(String, Fragment)> = Vec::new();
        push_plain(&mut ps, "{id}", u64_dec(id));
        push_plain(&mut ps, "{name}", html_escape_vec(&name_v));
        let t = Text::Key("warn.user_no_warnings".to_owned(), ps);
        assert(params_model(ps@) =~= seq![("{id}"@, FragmentModel::Plain(dec(id as nat))), ("{name}"@, FragmentModel::Plain(spec_html_escape(name@)))]);
        return t;
    }
    let mut hp: Vec<(String, String)> = Vec::new();
    hp.push(("{id}".to_owned(), string_of(&u64_dec(id))));
    hp.push(("{name}".to_owned(), string_of(&html_escape_vec(&name_v))));
    hp.push(("{count}".to_owned(), string_of(&u64_dec(count))));
    hp.push(("{limit}".to_owned(), string_of(&u64_dec(limit as u64))));
    assert(crate::plugins::common::pairs_model(hp@) =~= seq![("{id}"@, dec(id as nat)), ("{name}"@, spec_html_escape(name@)), ("{count}"@, dec(count as nat)), ("{limit}"@, dec(limit as nat))]);
    let mut fs: Vec<Fragment> = Vec::new();
    crate::plugins::common::push_piece(&mut fs, Fragment::Key("warn.user_warnings_header".to_owned(), hp));
    let ghost head = crate::plugins::common::fragments_model(fs@);
    let mut i: usize = 0;
    assert(warnings@.take(0) =~= Seq::<WarnEntry>::empty());
    assert(crate::plugins::common::fragments_model(fs@) =~= head + warn_lines(warnings@.take(0)));
    while i < warnings.len()
        invariant
            i <= warnings.len(),
            crate::plugins::common::fragments_model(fs@) == head + warn_lines(warnings@.take(i as int)),
        decreases warnings.len() - i,
    {
        assert(warnings@.take(i + 1).drop_last() =~= warnings@.take(i as int));
        let ghost before = crate::plugins::common::fragments_model(fs@);
        if !warnings[i].expired {
            assert(i + 1 <= u64::MAX) by {
                assert(warnings.len() <= usize::MAX);
            }
            let num = concat_vec(&u64_dec((i + 1) as u64), &chars_of(". "));
            crate::plugins::common::push_piece(&mut fs, Fragment::Plain(string_of(&num)));
            let rf = match &warnings[i].reason {
                Some(r) => Fragment::Plain(string_of(&html_escape_vec(&chars_of(r.as_str())))),
                None => Fragment::EscapedKey("warn.no_reason".to_owned()),
            };
            crate::plugins::common::push_piece(&mut fs, rf);
            crate::plugins::common::push_piece(&mut fs, Fragment::Plain("\n".to_owned()));
            assert(crate::plugins::common::fragments_model(fs@) =~= head + warn_lines(warnings@.take(i + 1)));
        } else {
            assert(crate::plugins::common::fragments_model(fs@) =~= head + warn_lines(warnings@.take(i + 1)));
        }
        i = i + 1;
    }
    assert(warnings@.take(warnings.len() as int) =~= warnings@);
    let t = Text::Concat(fs);
    assert(head =~= seq![FragmentModel::Key(
        "warn.user_warnings_header"@,
        seq![("{id}"@, dec(id as nat)), ("{name}"@, spec_html_escape(name@)), ("{count}"@, dec(count as nat)), ("{limit}"@, dec(limit as nat))],
    )]);
    t
}

/// The button data of a warn removal, read.
#[derive(Debug, Clone, PartialEq, Eq)]
pub enum RemovalRequest {
    /// Not a removal button: nothing is done.
    NotOurs,
    /// Answer the button press with this text (as an alert when set), and stop.
    Answer(Text, bool),
    /// Ask whether the presser may restrict members in this chat.
    AskPermission(i64),
    /// Remove the latest warning of `target` in `chat`.
    Remove(i64, u64),
}

pub enum RemovalRequestModel {
    NotOurs,
    Answer(TextModel, bool),
    AskPermission(i64),
    Remove(i64, u64),
}

impl View for RemovalRequest {
    type V = RemovalRequestModel;

    open spec fn view(&self) -> RemovalRequestModel {
        match self {
            RemovalRequest::NotOurs => RemovalRequestModel::NotOurs,
            RemovalRequest::Answer(t, a) => RemovalRequestModel::Answer(t@, *a),
            RemovalRequest::AskPermission(c) => RemovalRequestModel::AskPermission(*c),
            RemovalRequest::Remove(c, t) => RemovalRequestModel::Remove(*c, *t),
        }
    }
}

/// Reading `warn_remove:{chat}:{user}`: the three `:`-separated parts, the
/// ids read as numbers (0 when unreadable, which is refused), then the
/// presser's right to restrict members.
pub open spec fn spec_removal_request(data: Option<Seq<char>>, can_restrict: Option<bool>) -> RemovalRequestModel {
    match data {
        None => RemovalRequestModel::NotOurs,
        Some(d) => if !crate::text::starts_with(d, "warn_remove:"@) {
            RemovalRequestModel::NotOurs
        } else {
            let parts = crate::text::split_on(d, seq![':']);
            if parts.len() != 3 {
                RemovalRequestModel::Answer(TextModel::Plain("❌ Data tidak valid."@), false)
            } else {
                let chat: int = match crate::text::parse_signed(parts[1], i64::MAX as nat) {
                    Some(c) => c,
                    None => 0,
                };
                let target: nat = match crate::text::parse_unsigned(parts[2], u64::MAX as nat) {
                    Some(t) => t,
                    None => 0,
                };
                if chat == 0 || target == 0 {
                    RemovalRequestModel::Answer(TextModel::Key("warn.callback_invalid_data"@, Seq::empty()), false)
                } else {
                    match can_restrict {
                        None => RemovalRequestModel::AskPermission(chat as i64),
                        Some(false) => RemovalRequestModel::Answer(missing_permission("CanRestrictMembers"@), true),
                        Some(true) => RemovalRequestModel::Remove(chat as i64, target as u64),
                    }
                }
            }
        },
    }
}

pub fn read_removal_request(data: &Option<String>, can_restrict: Option<bool>) -> (r: RemovalRequest)
    ensures
        r@ == spec_removal_request(match data { Some(d) => Some(d@), None => None }, can_restrict),
{
    let d = match data {
        None => {
            return RemovalRequest::NotOurs;
        },
        Some(d) => chars_of(d.as_str()),
    };
    if !crate::text::starts_with_vec(&d, &chars_of("warn_remove:")) {
        return RemovalRequest::NotOurs;
    }
    let sep = vec![':'];
    assert(sep@ =~= seq![':']);
    let parts = crate::text::split_on_vec(&d, &sep);
    if parts.len() != 3 {
        return RemovalRequest::Answer(plain_text("❌ Data tidak valid."), false);
    }
    assert(crate::text::views(parts@)[1] == parts@[1]@);
    assert(crate::text::views(parts@)[2] == parts@[2]@);
    let chat: i64 = match crate::text::parse_i64_vec(&parts[1]) {
        Some(c) => c,
        None => 0,
    };
    let target: u64 = match crate::text::parse_u64_vec(&parts[2]) {
        Some(t) => t,
        None => 0,
    };
    if chat == 0 || target == 0 {
        return RemovalRequest::Answer(key_text("warn.callback_invalid_data"), false);
    }
    match can_restrict {
        None => RemovalRequest::AskPermission(chat),
        Some(false) => RemovalRequest::Answer(missing_permission_text("CanRestrictMembers"), true),
        Some(true) => RemovalRequest::Remove(chat, target),
    }
}

/// After a button removal: the new text of the warning message (when a
/// warning was removed; HTML), and the answer to the button press.
/// `presser` is the presser's id and first name, `target_name` the target's
/// stored first name if any, `count` the remaining count and `limit` the
/// chat's limit.
pub open spec fn spec_removal_done(
    removed: bool,
    presser: (u64, Seq<char>),
    target: u64,
    target_name: Option<Seq<char>>,
    count: u64,
    limit: u32,
) -> (Option<TextModel>, TextModel) {
    if removed {
        let name = match target_name {
            Some(n) => n,
            None => crate::plugins::common::user_placeholder(target),
        };
        (
            Some(
                TextModel::Key(
                    "warn.callback_removed"@,
                    seq![
                        ("{admin}"@, FragmentModel::Plain(crate::utils::parser::spec_mention(presser.0, presser.1))),
                        ("{target}"@, FragmentModel::Plain(crate::utils::parser::spec_mention(target, name))),
                        ("{count}"@, FragmentModel::Plain(dec(count as nat))),
                        ("{limit}"@, FragmentModel::Plain(dec(limit as nat))),
                    ],
                ),
            ),
            TextModel::Key("warn.callback_success"@, Seq::empty()),
        )
    } else {
        (None, TextModel::Key("warn.user_no_warnings_simple"@, Seq::empty()))
    }
}

pub fn removal_done(
    removed: bool,
    presser_id: u64,
    presser_name: &String,
    target: u64,
    target_name: Option<String>,
    count: u64,
    limit: u32,
) -> (r: (Option<Text>, Text))
    ensures
        ({
            let (edit, answer) = spec_removal_done(
                removed,
                (presser_id, presser_name@),
                target,
                match target_name { Some(n) => Some(n@), None => None },
                count,
                limit,
            );
            &&& answer == r.1@
            &&& match r.0 {
                Some(t) => edit == Some(t@),
                None => edit is None,
            }
        }),
{
    if !removed {
        return (None, key_text("warn.user_no_warnings_simple"));
    }
    let name = match &target_name {
        Some(n) => chars_of(n.as_str()),
        None => crate::plugins::common::user_placeholder_vec(target),
    };
    let mut ps: Vec<(String, Fragment)> = Vec::new();
    push_plain(&mut ps, "{admin}", crate::utils::parser::mention_vec(presser_id, &chars_of(presser_name.as_str())));
    push_plain(&mut ps, "{target}", crate::utils::parser::mention_vec(target, &name));
    push_plain(&mut ps, "{count}", u64_dec(count));
    push_plain(&mut ps, "{limit}", u64_dec(limit as u64));
    let t = Text::Key("warn.callback_removed".to_owned(), ps);
    assert(params_model(ps@) =~= seq![
        ("{admin}"@, FragmentModel::Plain(crate::utils::parser::spec_mention(presser_id, presser_name@))),
        ("{target}"@, FragmentModel::Plain(crate::utils::parser::spec_mention(target, name@))),
        ("{count}"@, FragmentModel::Plain(dec(count as nat))),
        ("{limit}"@, FragmentModel::Plain(dec(limit as nat))),
    ]);
    (Some(t), key_text("warn.callback_success"))
}

/// /warn: warn the target.
pub fn warn_command(
    m: &CommandMsg,
    can_restrict: Option<bool>,
    target: Option<Option<(u64, String, usize)>>,
    target_is_admin: Option<bool>,
) -> (r: WarnStart)
    ensures
        r@ == spec_warn_start(WarnAction::Normal, *m, can_restrict, target_model(target), target_is_admin),
{
    warn_action(WarnAction::Normal, m, can_restrict, target, target_is_admin)
}

/// /dwarn: warn the replied message's sender and delete the message.
pub fn dwarn_command(
    m: &CommandMsg,
    can_restrict: Option<bool>,
    target: Option<Option<(u64, String, usize)>>,
    target_is_admin: Option<bool>,
) -> (r: WarnStart)
    ensures
        r@ == spec_warn_start(WarnAction::DeleteMsg, *m, can_restrict, target_model(target), target_is_admin),
{
    warn_action(WarnAction::DeleteMsg, m, can_restrict, target, target_is_admin)
}

/// /swarn: warn silently, deleting the command.
pub fn swarn_command(
    m: &CommandMsg,
    can_restrict: Option<bool>,
    target: Option<Option<(u64, String, usize)>>,
    target_is_admin: Option<bool>,
) -> (r: WarnStart)
    ensures
        r@ == spec_warn_start(WarnAction::Silent, *m, can_restrict, target_model(target), target_is_admin),
{
    warn_action(WarnAction::Silent, m, can_restrict, target, target_is_admin)
}

/// /rmwarn: remove the target's latest warning.
pub fn rmwarn_command(
    m: &CommandMsg,
    can_restrict: Option<bool>,
    target: Option<Option<(u64, String, usize)>>,
) -> (r: RemovalStart)
    ensures
        r@ == spec_removal_start(RemovalKind::LastWarning, *m, can_restrict, target_model(target)),
{
    decide_warn_removal(RemovalKind::LastWarning, m, can_restrict, target)
}

/// /resetwarn: remove all of the target's warnings.
pub fn resetwarn_command(
    m: &CommandMsg,
    can_restrict: Option<bool>,
    target: Option<Option<(u64, String, usize)>>,
) -> (r: RemovalStart)
    ensures
        r@ == spec_removal_start(RemovalKind::AllOfUser, *m, can_restrict, target_model(target)),
{
    decide_warn_removal(RemovalKind::AllOfUser, m, can_restrict, target)
}

/// /resetallwarns: clear every warning of the chat.
pub fn resetallwarns_command(m: &CommandMsg, can_promote: Option<bool>, cleared: Option<u64>) -> (r: ClearAllOutcome)
    ensures
        r@ == spec_clear_all(*m, can_promote, cleared),
{
    decide_clear_all_warns(m, can_promote, cleared)
}

/// /warnmode: show or change what happens at the limit.
pub fn warnmode_command(m: &CommandMsg, can_restrict: Option<bool>, config: Option<WarnConfig>) -> (r: SettingOutcome)
    ensures
        r@ == spec_setting(WarnSetting::Mode, *m, can_restrict, config),
{
    decide_warn_setting(WarnSetting::Mode, m, can_restrict, config)
}

/// /warnlimit: show or change the limit.
pub fn warnlimit_command(m: &CommandMsg, can_restrict: Option<bool>, config: Option<WarnConfig>) -> (r: SettingOutcome)
    ensures
        r@ == spec_setting(WarnSetting::Limit, *m, can_restrict, config),
{
    decide_warn_setting(WarnSetting::Limit, m, can_restrict, config)
}

/// /warntime: show or change how long warnings count.
pub fn warntime_command(m: &CommandMsg, can_restrict: Option<bool>, config: Option<WarnConfig>) -> (r: SettingOutcome)
    requires
        warntime_reads_duration(*m, can_restrict) ==> crate::utils::parser::duration_input_ok(args_of(*m)[0]),
    ensures
        r@ == spec_setting(WarnSetting::Time, *m, can_restrict, config),
{
    decide_warn_setting(WarnSetting::Time, m, can_restrict, config)
}

} // verus!
