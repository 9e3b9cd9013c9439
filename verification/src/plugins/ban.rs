//! Ban management commands.
//!
//! Commands for banning, unbanning, and kicking users.

use vstd::prelude::*;
use crate::plugins::common::{
    CommandMsg, Fragment, FragmentModel, Query, Text, TextModel, args_of, args_vec,
    key_text, missing_permission, missing_permission_text, params_model, push_fragment,
    push_plain, reason_from, reason_from_vec, reply_sender, reply_sender_of, user_placeholder,
    user_placeholder_vec,
};
use crate::text::{chars_of, concat_vec, dec, parse_u64_vec, parse_unsigned, u64_dec, views};
use crate::utils::parser::{html_escape_vec, parse_duration_secs, spec_html_escape, spec_parse_duration};
use crate::plugins::warn::target_model;

verus! {

#[derive(Debug, Clone, Copy, PartialEq, Eq, Structural)]
pub enum BanMode {
    Forever,
    Temporary,
    DeleteAndBan,
    SilentBan,
    Kick,
    DeleteKick,
    SilentKick,
    Unban,
}

/// What a ban command does once it is decided to act.
#[derive(Debug, Clone, PartialEq, Eq)]
pub struct BanExecution {
    pub target: u64,
    /// Delete the command message first (silent modes); a failure is ignored.
    pub delete_command: bool,
    /// Delete this message (the replied one) first; a failure is ignored.
    pub delete_replied: Option<i32>,
    /// Ban the target (until `ban_for_secs` from now, when given).
    pub ban: bool,
    pub ban_for_secs: Option<u64>,
    /// Unban the target (after the ban, for kicks).
    pub unban: bool,
    /// Announce in the chat, as HTML.
    pub announce: Option<Text>,
}

/// The decision of a ban command.
#[derive(Debug, Clone, PartialEq, Eq)]
pub enum BanOutcome {
    /// Not a group: nothing is done.
    Ignore,
    /// The answer to this question is needed first.
    Ask(Query),
    /// Resolve the target (see `utils::target`) and call again with it.
    ResolveTarget,
    /// Reply to the command with this text, and stop.
    Reply(Text),
    Execute(BanExecution),
}

pub struct BanExecModel {
    pub target: u64,
    pub delete_command: bool,
    pub delete_replied: Option<i32>,
    pub ban: bool,
    pub ban_for_secs: Option<u64>,
    pub unban: bool,
    pub announce: Option<TextModel>,
}

pub enum BanModel {
    Ignore,
    Ask(Query),
    ResolveTarget,
    Reply(TextModel),
    Execute(BanExecModel),
}

impl View for BanOutcome {
    type V = BanModel;

    open spec fn view(&self) -> BanModel {
        match self {
            BanOutcome::Ignore => BanModel::Ignore,
            BanOutcome::Ask(q) => BanModel::Ask(*q),
            BanOutcome::ResolveTarget => BanModel::ResolveTarget,
            BanOutcome::Reply(t) => BanModel::Reply(t@),
            BanOutcome::Execute(e) => BanModel::Execute(
                BanExecModel {
                    target: e.target,
                    delete_command: e.delete_command,
                    delete_replied: e.delete_replied,
                    ban: e.ban,
                    ban_for_secs: e.ban_for_secs,
                    unban: e.unban,
                    announce: match e.announce {
                        Some(t) => Some(t@),
                        None => None,
                    },
                },
            ),
        }
    }
}

/// The target of a ban or mute command, with the index of the first
/// argument after it: the replied message's sender, else a numeric id as
/// the first argument (named `User {id}`).
pub open spec fn spec_action_target(m: CommandMsg) -> Option<(u64, Seq<char>, int)> {
    if m.reply is Some {
        match reply_sender(m) {
            Some((id, name)) => Some((id, name, 0)),
            None => None,
        }
    } else if args_of(m).len() > 0 {
        match parse_unsigned(args_of(m)[0], u64::MAX as nat) {
            Some(id) => Some((id as u64, user_placeholder(id as u64), 1)),
            None => None,
        }
    } else {
        None
    }
}

/// The target once resolution is taken into account: the replied
/// message's sender or a numeric id (`spec_action_target`), else, for a
/// first argument that is neither (an `@username` or a text mention), the
/// user that target resolution found. `None`: resolution is still to be
/// asked; `Some(None)`: no target.
pub open spec fn target_of(
    m: CommandMsg,
    resolved: Option<Option<(u64, Seq<char>, nat)>>,
) -> Option<Option<(u64, Seq<char>, int)>> {
    match spec_action_target(m) {
        Some(t) => Some(Some(t)),
        None => if m.reply is Some || args_of(m).len() == 0 {
            Some(None)
        } else {
            match resolved {
                None => None,
                Some(None) => Some(None),
                Some(Some((id, name, skip))) => Some(Some((id, name, skip as int))),
            }
        },
    }
}

/// The duration argument a ban or mute reads, when it gets that far: in a
/// group, for a permitted sender, once the target is found and known not to
/// be an admin, the argument right after the target.
pub open spec fn duration_arg(
    m: CommandMsg,
    can_restrict: Option<bool>,
    resolved: Option<Option<(u64, Seq<char>, nat)>>,
    target_is_admin: Option<bool>,
) -> Option<Seq<char>> {
    if m.in_group && can_restrict == Some(true) && target_is_admin == Some(false) {
        match target_of(m, resolved) {
            Some(Some((_, _, start))) => if args_of(m).len() > start {
                Some(args_of(m)[start])
            } else {
                None
            },
            _ => None,
        }
    } else {
        None
    }
}

/// The duration argument, where it is reached, is read by `parse_duration`
/// without panicking.
pub open spec fn duration_arg_ok(
    m: CommandMsg,
    can_restrict: Option<bool>,
    resolved: Option<Option<(u64, Seq<char>, nat)>>,
    target_is_admin: Option<bool>,
) -> bool {
    duration_arg(m, can_restrict, resolved, target_is_admin) matches Some(a) ==> crate::utils::parser::duration_input_ok(a)
}

/// Whether the argument at `i`, when there is one, is read by
/// `parse_duration` without panicking.
pub fn arg_duration_fits(m: &CommandMsg, i: usize) -> (b: bool)
    ensures
        b == (args_of(*m).len() > i ==> crate::utils::parser::duration_input_ok(args_of(*m)[i as int])),
{
    let args = args_vec(m);
    if args.len() > i {
        assert(views(args@)[i as int] == args@[i as int]@);
        crate::utils::parser::duration_input_checked(&args[i])
    } else {
        true
    }
}

/// The target of a ban or mute, as `target_of` gives it.
pub fn target_of_msg(m: &CommandMsg, resolved: &Option<Option<(u64, String, usize)>>) -> (r: Option<
    Option<(u64, Vec<char>, usize)>,
>)
    ensures
        match r {
            None => target_of(*m, target_model(*resolved)) is None,
            Some(None) => target_of(*m, target_model(*resolved)) == Some(None::<(u64, Seq<char>, int)>),
            Some(Some((id, n, k))) => target_of(*m, target_model(*resolved)) == Some(
                Some((id, n@, k as int)),
            ),
        },
{
    match action_target(m) {
        Some(t) => Some(Some(t)),
        None => {
            let args = args_vec(m);
            if m.reply.is_some() || args.len() == 0 {
                Some(None)
            } else {
                match resolved {
                    None => None,
                    Some(None) => Some(None),
                    Some(Some((id, name, skip))) => Some(Some((*id, chars_of(name.as_str()), *skip))),
                }
            }
        },
    }
}

/// Whether the duration argument, where reached, is read without panicking
/// (see `duration_arg_ok`).
pub fn duration_arg_fits(
    m: &CommandMsg,
    can_restrict: Option<bool>,
    resolved: &Option<Option<(u64, String, usize)>>,
    target_is_admin: Option<bool>,
) -> (b: bool)
    ensures
        b == duration_arg_ok(*m, can_restrict, target_model(*resolved), target_is_admin),
{
    if m.in_group && can_restrict == Some(true) && target_is_admin == Some(false) {
        match target_of_msg(m, resolved) {
            Some(Some((_, _, start))) => arg_duration_fits(m, start),
            _ => true,
        }
    } else {
        true
    }
}

pub fn action_target(m: &CommandMsg) -> (r: Option<(u64, Vec<char>, usize)>)
    ensures
        match r {
            Some((id, name, idx)) => spec_action_target(*m) == Some((id, name@, idx as int)),
            None => spec_action_target(*m) is None,
        },
{
    if m.reply.is_some() {
        match crate::plugins::common::reply_sender_of(m) {
            Some((id, name)) => Some((id, chars_of(name.as_str()), 0)),
            None => None,
        }
    } else {
        let args = args_vec(m);
        if args.len() > 0 {
            match parse_u64_vec(&args[0]) {
                Some(id) => Some((id, user_placeholder_vec(id), 1)),
                None => None,
            }
        } else {
            None
        }
    }
}

pub open spec fn is_silent_ban(mode: BanMode) -> bool {
    mode == BanMode::SilentBan || mode == BanMode::SilentKick
}

pub open spec fn is_kick(mode: BanMode) -> bool {
    mode == BanMode::Kick || mode == BanMode::DeleteKick || mode == BanMode::SilentKick
}

/// `ban.action_ban` for the ban modes, `ban.action_kick` for the kicks.
pub open spec fn ban_action_key(mode: BanMode) -> Seq<char> {
    if is_kick(mode) {
        "ban.action_kick"@
    } else {
        "ban.action_ban"@
    }
}

/// The reason line: `ban.reason` with the escaped reason, or nothing.
pub open spec fn ban_reason_line(reason: Option<Seq<char>>) -> FragmentModel {
    match reason {
        Some(r) => FragmentModel::Key("ban.reason"@, seq![("{reason}"@, spec_html_escape(r))]),
        None => FragmentModel::Plain(Seq::empty()),
    }
}

/// A whole number of seconds as `{:?}` prints a `Duration`: `0ns` for
/// zero, else the number followed by `s`.
pub open spec fn debug_secs(secs: nat) -> Seq<char> {
    if secs == 0 {
        "0ns"@
    } else {
        dec(secs) + "s"@
    }
}

pub fn debug_secs_vec(secs: u64) -> (r: Vec<char>)
    ensures
        r@ == debug_secs(secs as nat),
{
    if secs == 0 {
        chars_of("0ns")
    } else {
        concat_vec(&u64_dec(secs), &chars_of("s"))
    }
}

/// The announcement of each mode.
pub open spec fn ban_announce(
    mode: BanMode,
    id: u64,
    name: Seq<char>,
    secs: nat,
    reason: Option<Seq<char>>,
) -> Option<TextModel> {
    let pid = ("{id}"@, FragmentModel::Plain(dec(id as nat)));
    let pname = ("{name}"@, FragmentModel::Plain(spec_html_escape(name)));
    let preason = ("{reason}"@, ban_reason_line(reason));
    match mode {
        BanMode::Forever => Some(TextModel::Key("ban.banned"@, seq![pid, pname, preason])),
        BanMode::Temporary => Some(
            TextModel::Key(
                "ban.tban"@,
                seq![pid, pname, ("{duration}"@, FragmentModel::Plain(debug_secs(secs))), preason],
            ),
        ),
        BanMode::DeleteAndBan => Some(TextModel::Key("ban.dban"@, seq![pid, pname, preason])),
        BanMode::Kick => Some(TextModel::Key("ban.kicked"@, seq![pid, pname, preason])),
        BanMode::DeleteKick => Some(TextModel::Key("ban.dkick"@, seq![pid, pname, preason])),
        BanMode::Unban => Some(TextModel::Key("ban.unbanned"@, seq![pid, pname])),
        _ => None,
    }
}

pub open spec fn replied_id(m: CommandMsg) -> Option<i32> {
    match m.reply {
        Some(r) => Some(r.msg_id),
        None => None,
    }
}

/// What the ban command does for `mode` on message `m`, given the answers
/// known so far: whether the sender may restrict members, and whether the
/// target is an admin.
pub open spec fn spec_ban(
    mode: BanMode,
    m: CommandMsg,
    can_restrict: Option<bool>,
    resolved: Option<Option<(u64, Seq<char>, nat)>>,
    target_is_admin: Option<bool>,
) -> BanModel {
    if !m.in_group {
        BanModel::Ignore
    } else {
        match can_restrict {
            None => BanModel::Ask(Query::CanRestrictMembers),
            Some(false) => BanModel::Reply(missing_permission("CanRestrictMembers"@)),
            Some(true) => match target_of(m, resolved) {
                None => BanModel::ResolveTarget,
                Some(None) => BanModel::Reply(TextModel::Key("ban.error_user_not_found"@, Seq::empty())),
                Some(Some((id, name, start))) => {
                    if mode != BanMode::Unban && target_is_admin is None {
                        BanModel::Ask(Query::TargetIsAdmin(id))
                    } else if mode != BanMode::Unban && target_is_admin == Some(true) {
                        BanModel::Reply(
                            TextModel::Key(
                                "ban.anti_admin"@,
                                seq![("{action}"@, FragmentModel::Key(ban_action_key(mode), Seq::empty()))],
                            ),
                        )
                    } else {
                        let args = args_of(m);
                        let timing: Option<(Option<nat>, int)> = if mode == BanMode::Temporary {
                            if args.len() > start {
                                match spec_parse_duration(args[start]) {
                                    Some(d) => Some((Some(d), start + 1)),
                                    None => None,
                                }
                            } else {
                                None
                            }
                        } else {
                            Some((None, start))
                        };
                        match timing {
                            None => BanModel::Reply(
                                TextModel::Key(
                                    if args.len() > start {
                                        "ban.error_time_format"@
                                    } else {
                                        "ban.error_duration_missing"@
                                    },
                                    Seq::empty(),
                                ),
                            ),
                            Some((d, idx)) => BanModel::Execute(
                                BanExecModel {
                                    target: id,
                                    delete_command: is_silent_ban(mode),
                                    delete_replied: if mode == BanMode::DeleteAndBan || mode
                                        == BanMode::DeleteKick {
                                        replied_id(m)
                                    } else {
                                        None
                                    },
                                    ban: mode != BanMode::Unban,
                                    ban_for_secs: match d {
                                        Some(n) => Some(n as u64),
                                        None => None,
                                    },
                                    unban: is_kick(mode) || mode == BanMode::Unban,
                                    announce: ban_announce(
                                        mode,
                                        id,
                                        name,
                                        match d {
                                            Some(n) => n,
                                            None => 0,
                                        },
                                        reason_from(args, idx),
                                    ),
                                },
                            ),
                        }
                    }
                },
            },
        }
    }
}

fn announce_text(mode: BanMode, id: u64, name: &Vec<char>, secs: u64, reason: Option<Vec<char>>) -> (r: Option<Text>)
    ensures
        match r {
            Some(t) => ban_announce(mode, id, name@, secs as nat, match reason { Some(v) => Some(v@), None => None }) == Some(t@),
            None => ban_announce(mode, id, name@, secs as nat, match reason { Some(v) => Some(v@), None => None }) is None,
        },
{
    let ghost rm = match reason { Some(ref v) => Some(v@), None => None };
    let key = match mode {
        BanMode::Forever => "ban.banned",
        BanMode::Temporary => "ban.tban",
        BanMode::DeleteAndBan => "ban.dban",
        BanMode::Kick => "ban.kicked",
        BanMode::DeleteKick => "ban.dkick",
        BanMode::Unban => "ban.unbanned",
        _ => {
            return None;
        },
    };
    let mut ps: Vec<(String, Fragment)> = Vec::new();
    push_plain(&mut ps, "{id}", u64_dec(id));
    push_plain(&mut ps, "{name}", html_escape_vec(name));
    if mode == BanMode::Temporary {
        push_plain(&mut ps, "{duration}", debug_secs_vec(secs));
    }
    if mode != BanMode::Unban {
        let line = match reason {
            Some(r) => {
                let mut inner: Vec<(String, String)> = Vec::new();
                inner.push(("{reason}".to_owned(), crate::text::string_of(&html_escape_vec(&r))));
                let f = Fragment::Key("ban.reason".to_owned(), inner);
                assert(crate::plugins::common::pairs_model(inner@) =~= seq![("{reason}"@, spec_html_escape(r@))]);
                f
            },
            None => Fragment::Plain(String::new()),
        };
        push_fragment(&mut ps, "{reason}", line);
    }
    let t = Text::Key(key.to_owned(), ps);
    assert(Some(t@) == ban_announce(mode, id, name@, secs as nat, rm)) by {
        assert(params_model(ps@) =~= match ban_announce(mode, id, name@, secs as nat, rm) {
            Some(TextModel::Key(_, p)) => p,
            _ => Seq::empty(),
        });
    }
    Some(t)
}

/// Decides the ban command `mode` on message `m`. The caller answers each
/// `Ask` and calls again with the answer filled in.
pub fn ban_action(
    mode: BanMode,
    m: &CommandMsg,
    can_restrict: Option<bool>,
    target: Option<Option<(u64, String, usize)>>,
    target_is_admin: Option<bool>,
) -> (r: BanOutcome)
    requires
        mode == BanMode::Temporary ==> duration_arg_ok(*m, can_restrict, target_model(target), target_is_admin),
    ensures
        r@ == spec_ban(mode, *m, can_restrict, target_model(target), target_is_admin),
{
    if !m.in_group {
        return BanOutcome::Ignore;
    }
    match can_restrict {
        None => {
            return BanOutcome::Ask(Query::CanRestrictMembers);
        },
        Some(false) => {
            return BanOutcome::Reply(missing_permission_text("CanRestrictMembers"));
        },
        Some(true) => {},
    }
    let (id, name, start) = match target_of_msg(m, &target) {
        None => {
            return BanOutcome::ResolveTarget;
        },
        Some(None) => {
            return BanOutcome::Reply(key_text("ban.error_user_not_found"));
        },
        Some(Some(t)) => t,
    };
    if mode != BanMode::Unban {
        match target_is_admin {
            None => {
                return BanOutcome::Ask(Query::TargetIsAdmin(id));
            },
            Some(true) => {
                let action = if mode == BanMode::Kick || mode == BanMode::DeleteKick || mode
                    == BanMode::SilentKick {
                    "ban.action_kick"
                } else {
                    "ban.action_ban"
                };
                let empty: Vec<(String, String)> = Vec::new();
                let mut ps: Vec<(String, Fragment)> = Vec::new();
                assert(crate::plugins::common::pairs_model(empty@) =~= Seq::<(Seq<char>, Seq<char>)>::empty());
                push_fragment(&mut ps, "{action}", Fragment::Key(action.to_owned(), empty));
                assert(params_model(ps@) =~= seq![("{action}"@, FragmentModel::Key(ban_action_key(mode), Seq::empty()))]);
                return BanOutcome::Reply(Text::Key("ban.anti_admin".to_owned(), ps));
            },
            Some(false) => {},
        }
    }
    let args = args_vec(m);
    let (secs, idx): (Option<u64>, usize) = if mode == BanMode::Temporary {
        if args.len() > start {
            assert(duration_arg(*m, can_restrict, target_model(target), target_is_admin) == Some(views(args@)[start as int]));
            match parse_duration_secs(&args[start]) {
                Some(d) => (Some(d), start + 1),
                None => {
                    return BanOutcome::Reply(key_text("ban.error_time_format"));
                },
            }
        } else {
            return BanOutcome::Reply(key_text("ban.error_duration_missing"));
        }
    } else {
        (None, start)
    };
    let reason = reason_from_vec(&args, idx);
    let delete_replied = if mode == BanMode::DeleteAndBan || mode == BanMode::DeleteKick {
        match &m.reply {
            Some(rp) => Some(rp.msg_id),
            None => None,
        }
    } else {
        None
    };
    let announce = announce_text(
        mode,
        id,
        &name,
        match secs {
            Some(n) => n,
            None => 0,
        },
        reason,
    );
    BanOutcome::Execute(
        BanExecution {
            target: id,
            delete_command: mode == BanMode::SilentBan || mode == BanMode::SilentKick,
            delete_replied,
            ban: mode != BanMode::Unban,
            ban_for_secs: secs,
            unban: mode == BanMode::Kick || mode == BanMode::DeleteKick || mode == BanMode::SilentKick
                || mode == BanMode::Unban,
            announce,
        },
    )
}

} // verus!

verus! {

/// The user `/kickme` removes: the sender, in a group, unless unknown or of
/// id 0.
pub fn kickme_command(m: &CommandMsg) -> (r: Option<u64>)
    ensures
        r == (if m.in_group {
            match m.from {
                Some(s) => if s.id != 0 {
                    Some(s.id)
                } else {
                    None
                },
                None => None,
            }
        } else {
            None
        }),
{
    if !m.in_group {
        return None;
    }
    match &m.from {
        Some(s) => if s.id != 0 {
            Some(s.id)
        } else {
            None
        },
        None => None,
    }
}

/// The reply to `/kickme`: goodbye when the ban went through, else the
/// error text.
pub fn kickme_reply(error: Option<String>) -> (t: Text)
    ensures
        t@ == match error {
            None => TextModel::Key("ban.kickme_goodbye"@, Seq::empty()),
            Some(e) => TextModel::Key("ban.error_kick_failed"@, seq![("{error}"@, FragmentModel::Plain(e@))]),
        },
{
    match error {
        None => key_text("ban.kickme_goodbye"),
        Some(e) => crate::plugins::common::key_text1("ban.error_kick_failed", "{error}", chars_of(e.as_str())),
    }
}

/// /ban: ban the target.
pub fn ban_command(
    m: &CommandMsg,
    can_restrict: Option<bool>,
    target: Option<Option<(u64, String, usize)>>,
    target_is_admin: Option<bool>,
) -> (r: BanOutcome)
    ensures
        r@ == spec_ban(BanMode::Forever, *m, can_restrict, target_model(target), target_is_admin),
{
    ban_action(BanMode::Forever, m, can_restrict, target, target_is_admin)
}

/// /tban: ban the target for a while.
pub fn tban_command(
    m: &CommandMsg,
    can_restrict: Option<bool>,
    target: Option<Option<(u64, String, usize)>>,
    target_is_admin: Option<bool>,
) -> (r: BanOutcome)
    requires
        duration_arg_ok(*m, can_restrict, target_model(target), target_is_admin),
    ensures
        r@ == spec_ban(BanMode::Temporary, *m, can_restrict, target_model(target), target_is_admin),
{
    ban_action(BanMode::Temporary, m, can_restrict, target, target_is_admin)
}

/// /dban: delete the replied message and ban its sender.
pub fn dban_command(
    m: &CommandMsg,
    can_restrict: Option<bool>,
    target: Option<Option<(u64, String, usize)>>,
    target_is_admin: Option<bool>,
) -> (r: BanOutcome)
    ensures
        r@ == spec_ban(BanMode::DeleteAndBan, *m, can_restrict, target_model(target), target_is_admin),
{
    ban_action(BanMode::DeleteAndBan, m, can_restrict, target, target_is_admin)
}

/// /sban: ban silently, deleting the command.
pub fn sban_command(
    m: &CommandMsg,
    can_restrict: Option<bool>,
    target: Option<Option<(u64, String, usize)>>,
    target_is_admin: Option<bool>,
) -> (r: BanOutcome)
    ensures
        r@ == spec_ban(BanMode::SilentBan, *m, can_restrict, target_model(target), target_is_admin),
{
    ban_action(BanMode::SilentBan, m, can_restrict, target, target_is_admin)
}

/// /kick: kick the target.
pub fn kick_command(
    m: &CommandMsg,
    can_restrict: Option<bool>,
    target: Option<Option<(u64, String, usize)>>,
    target_is_admin: Option<bool>,
) -> (r: BanOutcome)
    ensures
        r@ == spec_ban(BanMode::Kick, *m, can_restrict, target_model(target), target_is_admin),
{
    ban_action(BanMode::Kick, m, can_restrict, target, target_is_admin)
}

/// /dkick: delete the replied message and kick its sender.
pub fn dkick_command(
    m: &CommandMsg,
    can_restrict: Option<bool>,
    target: Option<Option<(u64, String, usize)>>,
    target_is_admin: Option<bool>,
) -> (r: BanOutcome)
    ensures
        r@ == spec_ban(BanMode::DeleteKick, *m, can_restrict, target_model(target), target_is_admin),
{
    ban_action(BanMode::DeleteKick, m, can_restrict, target, target_is_admin)
}

/// /skick: kick silently, deleting the command.
pub fn skick_command(
    m: &CommandMsg,
    can_restrict: Option<bool>,
    target: Option<Option<(u64, String, usize)>>,
    target_is_admin: Option<bool>,
) -> (r: BanOutcome)
    ensures
        r@ == spec_ban(BanMode::SilentKick, *m, can_restrict, target_model(target), target_is_admin),
{
    ban_action(BanMode::SilentKick, m, can_restrict, target, target_is_admin)
}

/// /unban: lift the target's ban.
pub fn unban_command(
    m: &CommandMsg,
    can_restrict: Option<bool>,
    target: Option<Option<(u64, String, usize)>>,
    target_is_admin: Option<bool>,
) -> (r: BanOutcome)
    ensures
        r@ == spec_ban(BanMode::Unban, *m, can_restrict, target_model(target), target_is_admin),
{
    ban_action(BanMode::Unban, m, can_restrict, target, target_is_admin)
}

} // verus!
