//! Approval command handlers.
//!
//! Commands for managing approved users who bypass antiflood. The chat's
//! approval list is kept by the caller; these functions decide what to ask,
//! what to change and what to answer.

use vstd::prelude::*;
use crate::plugins::common::{
    CommandMsg, Fragment, FragmentModel, Query, Text, TextModel, args_of, args_vec, fragments_model,
    key_text, params_model, push_piece, push_plain, reply_sender, reply_sender_of,
};
use crate::text::{chars_of, concat_vec, dec, parse_u64_vec, parse_unsigned, string_of, u64_dec, views};
use crate::utils::parser::{html_escape_vec, mention_vec, spec_html_escape, spec_mention};
use crate::plugins::warn::target_model;

verus! {

/// `<a href="tg://user?id=ID">label</a>`.
pub open spec fn user_link(id: u64, label: Seq<char>) -> Seq<char> {
    "<a href=\"tg://user?id="@ + dec(id as nat) + "\">"@ + label + "</a>"@
}

fn user_link_vec(id: u64, label: &Vec<char>) -> (r: Vec<char>)
    ensures
        r@ == user_link(id, label@),
{
    let a = concat_vec(&chars_of("<a href=\"tg://user?id="), &u64_dec(id));
    let b = concat_vec(&a, &chars_of("\">"));
    let c = concat_vec(&b, label);
    let r = concat_vec(&c, &chars_of("</a>"));
    r
}

/// The user a command is about: the replied message's sender, or a numeric
/// id as first argument; as (id, HTML mention, name).
pub open spec fn approval_target(m: CommandMsg) -> Option<(u64, Seq<char>, Seq<char>)> {
    match reply_sender(m) {
        Some((id, name)) => Some((id, spec_mention(id, name), name)),
        None => {
            let a = args_of(m);
            if a.len() > 0 {
                match parse_unsigned(a[0], u64::MAX as nat) {
                    Some(n) => Some((n as u64, user_link(n as u64, dec(n)), dec(n))),
                    None => None,
                }
            } else {
                None
            }
        },
    }
}

/// Get target user from reply or command args.
/// Returns (user_id, mention_html, first_name)
pub fn get_target_user(m: &CommandMsg) -> (r: Option<(u64, String, String)>)
    ensures
        match r {
            Some((id, mention, name)) => approval_target(*m) == Some((id, mention@, name@)),
            None => approval_target(*m) is None,
        },
{
    match reply_sender_of(m) {
        Some((id, name)) => {
            let mention = mention_vec(id, &chars_of(name.as_str()));
            return Some((id, string_of(&mention), name));
        },
        None => {},
    }
    let a = args_vec(m);
    if a.len() > 0 {
        assert(views(a@)[0] == a@[0]@);
        match parse_u64_vec(&a[0]) {
            Some(id) => {
                let d = u64_dec(id);
                let link = user_link_vec(id, &d);
                Some((id, string_of(&link), string_of(&d)))
            },
            None => None,
        }
    } else {
        None
    }
}

/// The target once resolution is taken into account: the replied
/// message's sender or a numeric id (`approval_target`), else, for a first
/// argument that is neither (an `@username` or a text mention), the user
/// that target resolution found. `None`: resolution is still to be asked;
/// `Some(None)`: no target.
pub open spec fn approval_target_of(
    m: CommandMsg,
    resolved: Option<Option<(u64, Seq<char>, nat)>>,
) -> Option<Option<(u64, Seq<char>, Seq<char>)>> {
    match approval_target(m) {
        Some(t) => Some(Some(t)),
        None => if args_of(m).len() == 0 {
            Some(None)
        } else {
            match resolved {
                None => None,
                Some(None) => Some(None),
                Some(Some((id, name, _))) => Some(Some((id, spec_mention(id, name), name))),
            }
        },
    }
}

/// The target of an approval command, as `approval_target_of` gives it.
pub fn approval_target_msg(m: &CommandMsg, resolved: &Option<Option<(u64, String, usize)>>) -> (r: Option<
    Option<(u64, String, String)>,
>)
    ensures
        match r {
            None => approval_target_of(*m, target_model(*resolved)) is None,
            Some(None) => approval_target_of(*m, target_model(*resolved)) == Some(
                None::<(u64, Seq<char>, Seq<char>)>,
            ),
            Some(Some((id, mention, name))) => approval_target_of(*m, target_model(*resolved)) == Some(
                Some((id, mention@, name@)),
            ),
        },
{
    match get_target_user(m) {
        Some(t) => Some(Some(t)),
        None => {
            let a = args_vec(m);
            if a.len() == 0 {
                Some(None)
            } else {
                match resolved {
                    None => None,
                    Some(None) => Some(None),
                    Some(Some((id, name, _))) => {
                        let mention = mention_vec(*id, &chars_of(name.as_str()));
                        Some(Some((*id, string_of(&mention), name.clone())))
                    },
                }
            }
        },
    }
}

/// The decision of an approval command.
#[derive(Debug, Clone, PartialEq, Eq)]
pub enum ApprovalOutcome {
    Ignore,
    Ask(Query),
    /// Resolve the command's target (an `@username` or a text mention) and
    /// call again with the answer.
    ResolveTarget,
    /// Read the chat's approvals (whether the sender is approved, or the
    /// list) and call again with them.
    LoadApprovals,
    /// Reply with the text (as HTML when the flag is set).
    Reply(Text, bool),
    /// Approve the user; reply (HTML) with the first text when the user
    /// was not approved yet, else with the second.
    Approve(u64, Text, Text),
    /// Remove the user's approval; reply (HTML) with the first text when
    /// the user was approved, else with the second.
    Unapprove(u64, Text, Text),
    /// Remove every approval of the chat, then reply with
    /// `unapprove_all_text` of how many there were.
    UnapproveAll,
}

pub enum ApprovalModel {
    Ignore,
    Ask(Query),
    ResolveTarget,
    LoadApprovals,
    Reply(TextModel, bool),
    Approve(u64, TextModel, TextModel),
    Unapprove(u64, TextModel, TextModel),
    UnapproveAll,
}

impl View for ApprovalOutcome {
    type V = ApprovalModel;

    open spec fn view(&self) -> ApprovalModel {
        match self {
            ApprovalOutcome::Ignore => ApprovalModel::Ignore,
            ApprovalOutcome::Ask(q) => ApprovalModel::Ask(*q),
            ApprovalOutcome::ResolveTarget => ApprovalModel::ResolveTarget,
            ApprovalOutcome::LoadApprovals => ApprovalModel::LoadApprovals,
            ApprovalOutcome::Reply(t, h) => ApprovalModel::Reply(t@, *h),
            ApprovalOutcome::Approve(id, a, b) => ApprovalModel::Approve(*id, a@, b@),
            ApprovalOutcome::Unapprove(id, a, b) => ApprovalModel::Unapprove(*id, a@, b@),
            ApprovalOutcome::UnapproveAll => ApprovalModel::UnapproveAll,
        }
    }
}

pub open spec fn key_only(k: Seq<char>) -> TextModel {
    TextModel::Key(k, Seq::empty())
}

pub open spec fn name_text(k: Seq<char>, mention: Seq<char>) -> TextModel {
    TextModel::Key(k, seq![("{name}"@, FragmentModel::Plain(mention))])
}

/// The chat's title, or `grup ini`.
pub open spec fn title_or(m: CommandMsg, default: Seq<char>) -> Seq<char> {
    match m.chat_title {
        Some(t) => t@,
        None => default,
    }
}

pub fn title_or_vec(m: &CommandMsg, default: &str) -> (r: Vec<char>)
    ensures
        r@ == title_or(*m, default@),
{
    match &m.chat_title {
        Some(t) => chars_of(t.as_str()),
        None => chars_of(default),
    }
}

/// /approve: admins approve the replied or given user.
pub open spec fn spec_approve(
    m: CommandMsg,
    is_admin: Option<bool>,
    resolved: Option<Option<(u64, Seq<char>, nat)>>,
) -> ApprovalModel {
    if m.from is None {
        ApprovalModel::Ignore
    } else if !m.in_group {
        ApprovalModel::Reply(key_only("approval.error_group_only"@), false)
    } else {
        match is_admin {
            None => ApprovalModel::Ask(Query::SenderIsAdmin),
            Some(false) => ApprovalModel::Reply(key_only("approval.error_admin_only"@), false),
            Some(true) => match approval_target_of(m, resolved) {
                None => ApprovalModel::ResolveTarget,
                Some(None) => ApprovalModel::Reply(key_only("approval.approve_usage"@), true),
                Some(Some((id, mention, _))) => ApprovalModel::Approve(
                    id,
                    TextModel::Key(
                        "approval.approved_success"@,
                        seq![
                            ("{name}"@, FragmentModel::Plain(mention)),
                            ("{chat}"@, FragmentModel::Plain(spec_html_escape(title_or(m, "grup ini"@)))),
                        ],
                    ),
                    name_text("approval.already_approved"@, mention),
                ),
            },
        }
    }
}

fn name_text_of(k: &str, mention: &String) -> (t: Text)
    ensures
        t@ == name_text(k@, mention@),
{
    let mut ps: Vec<(String, Fragment)> = Vec::new();
    push_plain(&mut ps, "{name}", chars_of(mention.as_str()));
    assert(params_model(ps@) =~= seq![("{name}"@, FragmentModel::Plain(mention@))]);
    Text::Key(k.to_owned(), ps)
}

/// Handle /approve command - approve a user.
pub fn approve_command(
    m: &CommandMsg,
    is_admin: Option<bool>,
    target: Option<Option<(u64, String, usize)>>,
) -> (r: ApprovalOutcome)
    ensures
        r@ == spec_approve(*m, is_admin, target_model(target)),
{
    if m.from.is_none() {
        return ApprovalOutcome::Ignore;
    }
    if !m.in_group {
        return ApprovalOutcome::Reply(key_text("approval.error_group_only"), false);
    }
    match is_admin {
        None => ApprovalOutcome::Ask(Query::SenderIsAdmin),
        Some(false) => ApprovalOutcome::Reply(key_text("approval.error_admin_only"), false),
        Some(true) => match approval_target_msg(m, &target) {
            None => ApprovalOutcome::ResolveTarget,
            Some(None) => ApprovalOutcome::Reply(key_text("approval.approve_usage"), true),
            Some(Some((id, mention, _))) => {
                let title = html_escape_vec(&title_or_vec(m, "grup ini"));
                let mut ps: Vec<(String, Fragment)> = Vec::new();
                push_plain(&mut ps, "{name}", chars_of(mention.as_str()));
                push_plain(&mut ps, "{chat}", title);
                assert(params_model(ps@) =~= seq![
                    ("{name}"@, FragmentModel::Plain(mention@)),
                    ("{chat}"@, FragmentModel::Plain(spec_html_escape(title_or(*m, "grup ini"@)))),
                ]);
                let done = Text::Key("approval.approved_success".to_owned(), ps);
                let already = name_text_of("approval.already_approved", &mention);
                ApprovalOutcome::Approve(id, done, already)
            },
        },
    }
}

/// /unapprove: admins remove the replied or given user's approval.
pub open spec fn spec_unapprove(
    m: CommandMsg,
    is_admin: Option<bool>,
    resolved: Option<Option<(u64, Seq<char>, nat)>>,
) -> ApprovalModel {
    if m.from is None || !m.in_group {
        ApprovalModel::Ignore
    } else {
        match is_admin {
            None => ApprovalModel::Ask(Query::SenderIsAdmin),
            Some(false) => ApprovalModel::Reply(key_only("approval.error_admin_only"@), false),
            Some(true) => match approval_target_of(m, resolved) {
                None => ApprovalModel::ResolveTarget,
                Some(None) => ApprovalModel::Reply(key_only("approval.unapprove_usage"@), false),
                Some(Some((id, mention, _))) => ApprovalModel::Unapprove(
                    id,
                    name_text("approval.unapproved_success"@, mention),
                    name_text("approval.not_approved"@, mention),
                ),
            },
        }
    }
}

/// Handle /unapprove command - remove approval.
pub fn unapprove_command(
    m: &CommandMsg,
    is_admin: Option<bool>,
    target: Option<Option<(u64, String, usize)>>,
) -> (r: ApprovalOutcome)
    ensures
        r@ == spec_unapprove(*m, is_admin, target_model(target)),
{
    if m.from.is_none() || !m.in_group {
        return ApprovalOutcome::Ignore;
    }
    match is_admin {
        None => ApprovalOutcome::Ask(Query::SenderIsAdmin),
        Some(false) => ApprovalOutcome::Reply(key_text("approval.error_admin_only"), false),
        Some(true) => match approval_target_msg(m, &target) {
            None => ApprovalOutcome::ResolveTarget,
            Some(None) => ApprovalOutcome::Reply(key_text("approval.unapprove_usage"), false),
            Some(Some((id, mention, _))) => ApprovalOutcome::Unapprove(
                id,
                name_text_of("approval.unapproved_success", &mention),
                name_text_of("approval.not_approved", &mention),
            ),
        },
    }
}

/// /unapproveall: members who may promote clear the chat's approvals.
pub open spec fn spec_unapproveall(m: CommandMsg, can_promote: Option<bool>) -> ApprovalModel {
    if m.from is None || !m.in_group {
        ApprovalModel::Ignore
    } else {
        match can_promote {
            None => ApprovalModel::Ask(Query::CanPromoteMembers),
            Some(false) => ApprovalModel::Reply(key_only("approval.error_promote_permission"@), false),
            Some(true) => ApprovalModel::UnapproveAll,
        }
    }
}

/// Handle /unapproveall command - clear all approvals.
pub fn unapproveall_command(m: &CommandMsg, can_promote: Option<bool>) -> (r: ApprovalOutcome)
    ensures
        r@ == spec_unapproveall(*m, can_promote),
{
    if m.from.is_none() || !m.in_group {
        return ApprovalOutcome::Ignore;
    }
    match can_promote {
        None => ApprovalOutcome::Ask(Query::CanPromoteMembers),
        Some(false) => ApprovalOutcome::Reply(key_text("approval.error_promote_permission"), false),
        Some(true) => ApprovalOutcome::UnapproveAll,
    }
}

/// The answer after clearing: how many approvals were removed (HTML).
pub fn unapprove_all_text(count: usize) -> (t: Text)
    ensures
        t@ == TextModel::Key(
            "approval.unapprove_all_success"@,
            seq![("{count}"@, FragmentModel::Plain(dec(count as nat)))],
        ),
{
    let mut ps: Vec<(String, Fragment)> = Vec::new();
    push_plain(&mut ps, "{count}", u64_dec(count as u64));
    assert(params_model(ps@) =~= seq![("{count}"@, FragmentModel::Plain(dec(count as nat)))]);
    Text::Key("approval.unapprove_all_success".to_owned(), ps)
}

/// /approval: the sender learns whether they are approved.
pub open spec fn spec_approval(m: CommandMsg, approved: Option<bool>) -> ApprovalModel {
    if m.from is None {
        ApprovalModel::Ignore
    } else if !m.in_group {
        ApprovalModel::Reply(TextModel::Plain("⚠️ Perintah ini hanya untuk grup."@), false)
    } else {
        match approved {
            None => ApprovalModel::LoadApprovals,
            Some(true) => ApprovalModel::Reply(key_only("approval.status_approved"@), true),
            Some(false) => ApprovalModel::Reply(key_only("approval.status_not_approved"@), true),
        }
    }
}

/// Handle /approval command - check if user is approved.
pub fn approval_command(m: &CommandMsg, approved: Option<bool>) -> (r: ApprovalOutcome)
    ensures
        r@ == spec_approval(*m, approved),
{
    if m.from.is_none() {
        return ApprovalOutcome::Ignore;
    }
    if !m.in_group {
        return ApprovalOutcome::Reply(Text::Plain("⚠️ Perintah ini hanya untuk grup.".to_owned()), false);
    }
    match approved {
        None => ApprovalOutcome::LoadApprovals,
        Some(true) => ApprovalOutcome::Reply(key_text("approval.status_approved"), true),
        Some(false) => ApprovalOutcome::Reply(key_text("approval.status_not_approved"), true),
    }
}

/// One line per approved user: its position from 1 and a link labelled by
/// the id.
pub open spec fn approved_lines(ids: Seq<u64>) -> Seq<char>
    decreases ids.len(),
{
    if ids.len() == 0 {
        Seq::empty()
    } else {
        approved_lines(ids.drop_last()) + dec(ids.len()) + ". "@ + user_link(ids.last(), dec(ids.last() as nat))
            + "\n"@
    }
}

/// The list: a header, the lines, and a footer with the count.
pub open spec fn approved_list(ids: Seq<u64>) -> TextModel {
    TextModel::Concat(
        seq![
            FragmentModel::Key("approval.list_header"@, Seq::empty()),
            FragmentModel::Plain(approved_lines(ids)),
            FragmentModel::Key("approval.list_footer"@, seq![("{count}"@, dec(ids.len()))]),
        ],
    )
}

/// /approved: the chat's approved users.
pub open spec fn spec_approved(m: CommandMsg, list: Option<Seq<u64>>) -> ApprovalModel {
    if !m.in_group {
        ApprovalModel::Ignore
    } else {
        match list {
            None => ApprovalModel::LoadApprovals,
            Some(ids) => if ids.len() == 0 {
                ApprovalModel::Reply(key_only("approval.list_empty"@), false)
            } else {
                ApprovalModel::Reply(approved_list(ids), true)
            },
        }
    }
}

fn approved_lines_vec(ids: &Vec<u64>) -> (r: Vec<char>)
    ensures
        r@ == approved_lines(ids@),
{
    let mut r: Vec<char> = Vec::new();
    let mut i: usize = 0;
    while i < ids.len()
        invariant
            i <= ids.len(),
            r@ == approved_lines(ids@.take(i as int)),
        decreases ids.len() - i,
    {
        let ghost o = r@;
        let pos = u64_dec((i + 1) as u64);
        let a = concat_vec(&r, &pos);
        let b = concat_vec(&a, &chars_of(". "));
        let d = u64_dec(ids[i]);
        let c = concat_vec(&b, &user_link_vec(ids[i], &d));
        r = concat_vec(&c, &chars_of("\n"));
        assert(ids@.take(i + 1).drop_last() =~= ids@.take(i as int));
        assert(ids@.take(i + 1).last() == ids@[i as int]);
        i = i + 1;
    }
    assert(ids@.take(ids.len() as int) =~= ids@);
    r
}

/// Handle /approved or /approvals command - list approved users.
pub fn approved_command(m: &CommandMsg, list: Option<&Vec<u64>>) -> (r: ApprovalOutcome)
    ensures
        r@ == spec_approved(
            *m,
            match list {
                Some(v) => Some(v@),
                None => None,
            },
        ),
{
    if !m.in_group {
        return ApprovalOutcome::Ignore;
    }
    match list {
        None => ApprovalOutcome::LoadApprovals,
        Some(ids) => {
            if ids.len() == 0 {
                ApprovalOutcome::Reply(key_text("approval.list_empty"), false)
            } else {
                let mut fs: Vec<Fragment> = Vec::new();
                push_piece(&mut fs, Fragment::Key("approval.list_header".to_owned(), Vec::new()));
                push_piece(&mut fs, Fragment::Plain(string_of(&approved_lines_vec(ids))));
                let mut ps: Vec<(String, String)> = Vec::new();
                ps.push(("{count}".to_owned(), string_of(&u64_dec(ids.len() as u64))));
                push_piece(&mut fs, Fragment::Key("approval.list_footer".to_owned(), ps));
                assert(crate::plugins::common::pairs_model(Seq::<(String, String)>::empty()) =~= Seq::empty());
                assert(crate::plugins::common::pairs_model(ps@) =~= seq![("{count}"@, dec(ids@.len()))]);
                assert(fragments_model(fs@) =~= seq![
                    FragmentModel::Key("approval.list_header"@, Seq::empty()),
                    FragmentModel::Plain(approved_lines(ids@)),
                    FragmentModel::Key("approval.list_footer"@, seq![("{count}"@, dec(ids@.len()))]),
                ]);
                ApprovalOutcome::Reply(Text::Concat(fs), true)
            }
        },
    }
}

} // verus!
