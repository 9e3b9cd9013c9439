//! Admin management commands.
//!
//! Commands for promoting and demoting group administrators.

use vstd::prelude::*;
use crate::plugins::common::{
    CommandMsg, Fragment, FragmentModel, Query, Text, TextModel, args_of, args_vec, join_from,
    join_space, key_text, key_text1, missing_permission, missing_permission_text, params_model,
    push_plain, reply_sender,
};
use crate::text::{chars_of, concat_vec, dec, parse_u64_vec, parse_unsigned, string_of, u64_dec, views};
use crate::utils::parser::{html_escape_vec, spec_html_escape};
use crate::plugins::warn::target_model;

verus! {

/// The administrator rights a promotion grants (or a demotion sets).
#[derive(Debug, Clone, Copy, PartialEq, Eq, Structural)]
pub struct AdminRights {
    pub can_manage_chat: bool,
    pub can_delete_messages: bool,
    pub can_restrict_members: bool,
    pub can_promote_members: bool,
    pub can_change_info: bool,
    pub can_invite_users: bool,
    pub can_pin_messages: bool,
}

/// Rights of a promoted admin: everything but promoting others.
pub open spec fn promoted_rights() -> AdminRights {
    AdminRights {
        can_manage_chat: true,
        can_delete_messages: true,
        can_restrict_members: true,
        can_promote_members: false,
        can_change_info: true,
        can_invite_users: true,
        can_pin_messages: true,
    }
}

/// Rights after a demotion: none.
pub open spec fn demoted_rights() -> AdminRights {
    AdminRights {
        can_manage_chat: false,
        can_delete_messages: false,
        can_restrict_members: false,
        can_promote_members: false,
        can_change_info: false,
        can_invite_users: false,
        can_pin_messages: false,
    }
}

/// A user id argument: only numeric ids are understood.
pub open spec fn spec_parse_user_id(input: Seq<char>) -> Option<u64> {
    match parse_unsigned(input, u64::MAX as nat) {
        Some(id) => Some(id as u64),
        None => None,
    }
}

/// Parse user ID from string (numeric ID only).
pub fn parse_user_id(input: &Vec<char>) -> (r: Option<u64>)
    ensures
        r == spec_parse_user_id(input@),
{
    match parse_u64_vec(input) {
        Some(id) => Some(id),
        None => None,
    }
}

/// What a promote or demote does once decided.
#[derive(Debug, Clone, PartialEq, Eq)]
pub struct AdminChange {
    pub target: u64,
    pub rights: AdminRights,
    /// The custom title to set after a promotion (at most 16 characters; a
    /// failure is ignored).
    pub custom_title: Option<String>,
    /// The reply (HTML) when the change went through.
    pub success: Text,
}

#[derive(Debug, Clone, PartialEq, Eq)]
pub enum AdminOutcome {
    Ask(Query),
    /// Resolve the target (see `utils::target`) and call again with it.
    ResolveTarget,
    /// Reply to the command (as HTML when set) and stop.
    Reply(Text, bool),
    Change(AdminChange),
}

pub enum AdminModel {
    Ask(Query),
    ResolveTarget,
    Reply(TextModel, bool),
    Change(u64, AdminRights, Option<Seq<char>>, TextModel),
}

impl View for AdminOutcome {
    type V = AdminModel;

    open spec fn view(&self) -> AdminModel {
        match self {
            AdminOutcome::Ask(q) => AdminModel::Ask(*q),
            AdminOutcome::ResolveTarget => AdminModel::ResolveTarget,
            AdminOutcome::Reply(t, h) => AdminModel::Reply(t@, *h),
            AdminOutcome::Change(c) => AdminModel::Change(
                c.target,
                c.rights,
                match c.custom_title {
                    Some(t) => Some(t@),
                    None => None,
                },
                c.success@,
            ),
        }
    }
}

/// The target and the title words of a promotion: the replied message's
/// sender with all the words as title, or a numeric id argument with the
/// words after it as title. `None`: no reply and no argument.
pub open spec fn spec_admin_target(m: CommandMsg) -> Option<(Option<u64>, Option<Seq<char>>)> {
    let parts = args_of(m);
    if m.reply is Some {
        Some(
            (
                match reply_sender(m) {
                    Some((id, _)) => Some(id),
                    None => None,
                },
                if parts.len() == 0 {
                    None
                } else {
                    Some(join_space(parts))
                },
            ),
        )
    } else if parts.len() > 0 {
        Some(
            (
                spec_parse_user_id(parts[0]),
                if parts.len() > 1 {
                    Some(join_space(parts.skip(1)))
                } else {
                    None
                },
            ),
        )
    } else {
        None
    }
}

/// The title words from index `k` on, when there are any.
pub open spec fn title_from(parts: Seq<Seq<char>>, k: int) -> Option<Seq<char>> {
    if parts.len() > k {
        Some(join_space(parts.skip(k)))
    } else {
        None
    }
}

/// The target and title once resolution is taken into account: for a first
/// argument that is neither a reply nor a numeric id (an `@username` or a
/// text mention), the user that target resolution found, with the words
/// after it as title. `None`: resolution is still to be asked;
/// `Some(None)`: no argument (the usage is shown).
pub open spec fn admin_target_of(
    m: CommandMsg,
    resolved: Option<Option<(u64, Seq<char>, nat)>>,
) -> Option<Option<(Option<u64>, Option<Seq<char>>)>> {
    match spec_admin_target(m) {
        None => Some(None),
        Some((Some(id), t)) => Some(Some((Some(id), t))),
        Some((None, t)) => if m.reply is Some {
            Some(Some((None, t)))
        } else {
            match resolved {
                None => None,
                Some(None) => Some(Some((None, None))),
                Some(Some((id, _, skip))) => Some(Some((Some(id), title_from(args_of(m), skip as int)))),
            }
        },
    }
}

/// The first 16 characters.
pub open spec fn title_cut(t: Seq<char>) -> Seq<char> {
    if t.len() <= 16 {
        t
    } else {
        t.take(16)
    }
}

/// What `/promote` (when `promote`) or `/demote` does.
pub open spec fn spec_admin_change(
    promote: bool,
    m: CommandMsg,
    can_promote: Option<bool>,
    resolved: Option<Option<(u64, Seq<char>, nat)>>,
) -> AdminModel {
    if !m.in_group {
        AdminModel::Reply(TextModel::Key("admin.error_group_only"@, Seq::empty()), false)
    } else {
        match can_promote {
            None => AdminModel::Ask(Query::CanPromoteMembers),
            Some(false) => AdminModel::Reply(missing_permission("CanPromoteMembers"@), false),
            Some(true) => match admin_target_of(m, resolved) {
                None => AdminModel::ResolveTarget,
                Some(None) => AdminModel::Reply(
                    TextModel::Key(if promote { "admin.promote_usage"@ } else { "admin.demote_usage"@ }, Seq::empty()),
                    true,
                ),
                Some(Some((None, _))) => AdminModel::Reply(
                    TextModel::Key("admin.error_user_not_found"@, Seq::empty()),
                    false,
                ),
                Some(Some((Some(id), title))) => {
                    let pid = ("{user_id}"@, FragmentModel::Plain(dec(id as nat)));
                    let pname = ("{user_name}"@, FragmentModel::Plain(dec(id as nat)));
                    if promote {
                        AdminModel::Change(
                            id,
                            promoted_rights(),
                            match title {
                                Some(t) => Some(title_cut(t)),
                                None => None,
                            },
                            TextModel::Key(
                                "admin.promote_success"@,
                                seq![
                                    pid,
                                    pname,
                                    (
                                        "{title}"@,
                                        FragmentModel::Plain(
                                            match title {
                                                Some(t) => " ("@ + spec_html_escape(t) + ")"@,
                                                None => Seq::empty(),
                                            },
                                        ),
                                    ),
                                ],
                            ),
                        )
                    } else {
                        AdminModel::Change(
                            id,
                            demoted_rights(),
                            None,
                            TextModel::Key("admin.demote_success"@, seq![pid, pname]),
                        )
                    }
                },
            },
        }
    }
}

pub fn decide_admin_change(
    promote: bool,
    m: &CommandMsg,
    can_promote: Option<bool>,
    target: Option<Option<(u64, String, usize)>>,
) -> (r: AdminOutcome)
    ensures
        r@ == spec_admin_change(promote, *m, can_promote, target_model(target)),
{
    if !m.in_group {
        return AdminOutcome::Reply(key_text("admin.error_group_only"), false);
    }
    match can_promote {
        None => {
            return AdminOutcome::Ask(Query::CanPromoteMembers);
        },
        Some(false) => {
            return AdminOutcome::Reply(missing_permission_text("CanPromoteMembers"), false);
        },
        Some(true) => {},
    }
    let parts = args_vec(m);
    let (target, title): (Option<u64>, Option<Vec<char>>) = if m.reply.is_some() {
        (
            match crate::plugins::common::reply_sender_of(m) {
                Some((id, _)) => Some(id),
                None => None,
            },
            if parts.len() == 0 {
                None
            } else {
                assert(views(parts@).skip(0) =~= views(parts@));
                Some(join_from(&parts, 0))
            },
        )
    } else if parts.len() > 0 {
        assert(views(parts@)[0] == parts@[0]@);
        match parse_user_id(&parts[0]) {
            Some(id) => (Some(id), if parts.len() > 1 {
                Some(join_from(&parts, 1))
            } else {
                None
            }),
            None => match target {
                None => {
                    return AdminOutcome::ResolveTarget;
                },
                Some(None) => (None, None),
                Some(Some((id, _, skip))) => (Some(id), if parts.len() > skip {
                    Some(join_from(&parts, skip))
                } else {
                    None
                }),
            },
        }
    } else {
        return AdminOutcome::Reply(
            if promote {
                key_text("admin.promote_usage")
            } else {
                key_text("admin.demote_usage")
            },
            true,
        );
    };
    let id = match target {
        None => {
            return AdminOutcome::Reply(key_text("admin.error_user_not_found"), false);
        },
        Some(id) => id,
    };
    let mut ps: Vec<(String, Fragment)> = Vec::new();
    push_plain(&mut ps, "{user_id}", u64_dec(id));
    push_plain(&mut ps, "{user_name}", u64_dec(id));
    if promote {
        let title_msg = match &title {
            Some(t) => concat_vec(&concat_vec(&chars_of(" ("), &html_escape_vec(t)), &chars_of(")")),
            None => Vec::new(),
        };
        push_plain(&mut ps, "{title}", title_msg);
        let custom_title = match &title {
            Some(t) => {
                let cut = if t.len() <= 16 {
                    t.clone()
                } else {
                    crate::text::slice_vec(t, 0, 16)
                };
                assert(cut@ =~= title_cut(t@));
                Some(string_of(&cut))
            },
            None => None,
        };
        let success = Text::Key("admin.promote_success".to_owned(), ps);
        let rights = AdminRights {
            can_manage_chat: true,
            can_delete_messages: true,
            can_restrict_members: true,
            can_promote_members: false,
            can_change_info: true,
            can_invite_users: true,
            can_pin_messages: true,
        };
        proof {
            let ghost tm = match title { Some(t) => Some(t@), None => None };
            assert(params_model(ps@) =~= seq![
                ("{user_id}"@, FragmentModel::Plain(dec(id as nat))),
                ("{user_name}"@, FragmentModel::Plain(dec(id as nat))),
                ("{title}"@, FragmentModel::Plain(match tm { Some(t) => " ("@ + spec_html_escape(t) + ")"@, None => Seq::empty() })),
            ]);
        }
        AdminOutcome::Change(AdminChange { target: id, rights, custom_title, success })
    } else {
        let success = Text::Key("admin.demote_success".to_owned(), ps);
        assert(params_model(ps@) =~= seq![
            ("{user_id}"@, FragmentModel::Plain(dec(id as nat))),
            ("{user_name}"@, FragmentModel::Plain(dec(id as nat))),
        ]);
        let rights = AdminRights {
            can_manage_chat: false,
            can_delete_messages: false,
            can_restrict_members: false,
            can_promote_members: false,
            can_change_info: false,
            can_invite_users: false,
            can_pin_messages: false,
        };
        AdminOutcome::Change(AdminChange { target: id, rights, custom_title: None, success })
    }
}

/// The reply when the promotion or demotion failed with `error`.
pub fn admin_change_failed(promote: bool, error: &String) -> (t: Text)
    ensures
        t@ == TextModel::Key(
            if promote { "admin.promote_fail"@ } else { "admin.demote_fail"@ },
            seq![("{error}"@, FragmentModel::Plain(error@))],
        ),
{
    key_text1(if promote { "admin.promote_fail" } else { "admin.demote_fail" }, "{error}", chars_of(error.as_str()))
}

/// /promote: make the target an admin.
pub fn promote_command(
    m: &CommandMsg,
    can_promote: Option<bool>,
    target: Option<Option<(u64, String, usize)>>,
) -> (r: AdminOutcome)
    ensures
        r@ == spec_admin_change(true, *m, can_promote, target_model(target)),
{
    decide_admin_change(true, m, can_promote, target)
}

/// /demote: make the target a member again.
pub fn demote_command(
    m: &CommandMsg,
    can_promote: Option<bool>,
    target: Option<Option<(u64, String, usize)>>,
) -> (r: AdminOutcome)
    ensures
        r@ == spec_admin_change(false, *m, can_promote, target_model(target)),
{
    decide_admin_change(false, m, can_promote, target)
}

} // verus!
