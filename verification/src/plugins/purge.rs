//! Purge command handlers.
//!
//! Commands for deleting multiple messages at once: which messages to
//! delete, and the start markers that /purgefrom leaves for /purgeto.

use vstd::prelude::*;
use std::collections::HashMap;
use crate::plugins::common::{CommandMsg, Query, Text, TextModel, args_of, args_vec};
use crate::text::{chars_of, concat_vec, dec, parse_i32_vec, parse_signed, string_of, u64_dec, views};

verus! {

broadcast use vstd::std_specs::hash::group_hash_axioms;

/// The start marker of each chat: the message /purgefrom marked.
pub struct PurgeMarkers {
    map: HashMap<i64, i32>,
}

impl View for PurgeMarkers {
    type V = Map<i64, i32>;

    closed spec fn view(&self) -> Map<i64, i32> {
        self.map@
    }
}

impl PurgeMarkers {
    pub fn new() -> (r: PurgeMarkers)
        ensures
            r@ == Map::<i64, i32>::empty(),
    {
        PurgeMarkers { map: HashMap::new() }
    }

    /// Marks `msg_id` as the start in `chat_id`, replacing an earlier mark.
    pub fn mark(&mut self, chat_id: i64, msg_id: i32)
        ensures
            final(self)@ == old(self)@.insert(chat_id, msg_id),
    {
        self.map.insert(chat_id, msg_id);
    }

    /// Removes and returns the mark of `chat_id`.
    pub fn take(&mut self, chat_id: i64) -> (r: Option<i32>)
        ensures
            final(self)@ == old(self)@.remove(chat_id),
            r == if old(self)@.contains_key(chat_id) {
                Some(old(self)@[chat_id])
            } else {
                None
            },
    {
        self.map.remove(&chat_id)
    }
}

/// What a purge command does.
#[derive(Debug, Clone, PartialEq, Eq)]
pub enum PurgeOutcome {
    Ignore,
    Ask(Query),
    /// Reply to the command with the text.
    Reply(Text),
    /// Delete these messages one by one, counting those deleted; with the
    /// flag set, then send `confirmation` of the count when it is positive
    /// and delete that after three seconds.
    Delete(Vec<i32>, bool),
    /// Delete these messages, ignoring failures.
    DeleteQuietly(Vec<i32>),
    /// The start is marked: delete the command (ignoring a failure), send
    /// the text and delete it after five seconds.
    Marked(Text),
}

pub enum PurgeModel {
    Ignore,
    Ask(Query),
    Reply(TextModel),
    Delete(Seq<i32>, bool),
    DeleteQuietly(Seq<i32>),
    Marked(TextModel),
}

impl View for PurgeOutcome {
    type V = PurgeModel;

    open spec fn view(&self) -> PurgeModel {
        match self {
            PurgeOutcome::Ignore => PurgeModel::Ignore,
            PurgeOutcome::Ask(q) => PurgeModel::Ask(*q),
            PurgeOutcome::Reply(t) => PurgeModel::Reply(t@),
            PurgeOutcome::Delete(ids, c) => PurgeModel::Delete(ids@, *c),
            PurgeOutcome::DeleteQuietly(ids) => PurgeModel::DeleteQuietly(ids@),
            PurgeOutcome::Marked(t) => PurgeModel::Marked(t@),
        }
    }
}

/// The ids `lo, lo + 1, ..., hi` (none when `hi < lo`).
pub open spec fn id_range(lo: int, hi: int) -> Seq<i32> {
    Seq::new(if hi >= lo { (hi - lo + 1) as nat } else { 0 }, |k: int| (lo + k) as i32)
}

fn id_range_vec(lo: i32, hi: i32) -> (r: Vec<i32>)
    ensures
        r@ == id_range(lo as int, hi as int),
{
    let mut r: Vec<i32> = Vec::new();
    let mut cur: i64 = lo as i64;
    if hi < lo {
        assert(r@ =~= id_range(lo as int, hi as int));
        return r;
    }
    assert(r@ =~= id_range(lo as int, cur - 1));
    while cur <= hi as i64
        invariant
            lo <= hi,
            lo <= cur <= hi + 1,
            r@ == id_range(lo as int, cur - 1),
        decreases hi + 1 - cur,
    {
        let ghost o = r@;
        r.push(cur as i32);
        assert(r@ =~= id_range(lo as int, cur as int)) by {
            assert(r@ =~= o.push(cur as i32));
        }
        cur = cur + 1;
    }
    r
}

/// The count argument of /purge: the first argument read as an `i32`.
pub open spec fn purge_count(m: CommandMsg) -> Option<int> {
    if args_of(m).len() > 0 {
        parse_signed(args_of(m)[0], i32::MAX as nat)
    } else {
        None
    }
}

/// The messages /purge deletes: with a count `n`, the replied message and
/// the `n` after it, then the command; else every message from the replied
/// one to the command.
pub open spec fn purge_ids(m: CommandMsg, start: i32) -> Seq<i32> {
    match purge_count(m) {
        Some(n) => id_range(start as int, start + n).push(m.msg_id),
        None => id_range(start as int, m.msg_id as int),
    }
}

/// The count stays within `i32` when added to the replied message's id.
pub open spec fn purge_fits(m: CommandMsg) -> bool {
    match (m.reply, purge_count(m)) {
        (Some(r), Some(n)) => r.msg_id + n <= i32::MAX,
        _ => true,
    }
}

/// Whether the count of /purge stays within `i32` (see `purge_fits`).
pub fn purge_fits_checked(m: &CommandMsg) -> (b: bool)
    ensures
        b == purge_fits(*m),
{
    match &m.reply {
        None => true,
        Some(r) => {
            let args = args_vec(m);
            if args.len() > 0 {
                assert(views(args@)[0] == args@[0]@);
                match parse_i32_vec(&args[0]) {
                    Some(n) => (r.msg_id as i64) + (n as i64) <= i32::MAX as i64,
                    None => true,
                }
            } else {
                true
            }
        },
    }
}

/// /purge gets as far as counting: in a group, for a sender who may
/// delete messages.
pub open spec fn purge_reads_count(m: CommandMsg, can_delete: Option<bool>) -> bool {
    m.in_group && can_delete == Some(true)
}

/// Whether the count of /purge, where it is read, stays within `i32`.
pub fn purge_count_fits(m: &CommandMsg, can_delete: Option<bool>) -> (b: bool)
    ensures
        b == (purge_reads_count(*m, can_delete) ==> purge_fits(*m)),
{
    if m.in_group && can_delete == Some(true) {
        purge_fits_checked(m)
    } else {
        true
    }
}

pub open spec fn no_delete_right() -> TextModel {
    TextModel::Plain("❌ Anda tidak memiliki izin untuk menghapus pesan."@)
}

/// /purge (silent for /spurge): deletes from the replied message on.
pub open spec fn spec_purge(m: CommandMsg, silent: bool, can_delete: Option<bool>) -> PurgeModel {
    if !m.in_group {
        PurgeModel::Ignore
    } else {
        match can_delete {
            None => PurgeModel::Ask(Query::CanDeleteMessages),
            Some(false) => if silent {
                PurgeModel::Ignore
            } else {
                PurgeModel::Reply(no_delete_right())
            },
            Some(true) => match m.reply {
                None => if silent {
                    PurgeModel::Ignore
                } else {
                    PurgeModel::Reply(TextModel::Plain("❌ Reply ke pesan untuk memulai purge."@))
                },
                Some(r) => PurgeModel::Delete(purge_ids(m, r.msg_id), !silent),
            },
        }
    }
}

pub fn purge_action(m: &CommandMsg, silent: bool, can_delete: Option<bool>) -> (r: PurgeOutcome)
    requires
        purge_reads_count(*m, can_delete) ==> purge_fits(*m),
    ensures
        r@ == spec_purge(*m, silent, can_delete),
{
    if !m.in_group {
        return PurgeOutcome::Ignore;
    }
    match can_delete {
        None => {
            return PurgeOutcome::Ask(Query::CanDeleteMessages);
        },
        Some(false) => {
            return if silent {
                PurgeOutcome::Ignore
            } else {
                PurgeOutcome::Reply(Text::Plain("❌ Anda tidak memiliki izin untuk menghapus pesan.".to_owned()))
            };
        },
        Some(true) => {},
    }
    let start = match &m.reply {
        Some(r) => r.msg_id,
        None => {
            return if silent {
                PurgeOutcome::Ignore
            } else {
                PurgeOutcome::Reply(Text::Plain("❌ Reply ke pesan untuk memulai purge.".to_owned()))
            };
        },
    };
    let args = args_vec(m);
    let count: Option<i32> = if args.len() > 0 {
        assert(views(args@)[0] == args@[0]@);
        parse_i32_vec(&args[0])
    } else {
        None
    };
    let ids = match count {
        Some(n) => {
            let mut v = if n >= 0 {
                id_range_vec(start, start + n)
            } else {
                let e: Vec<i32> = Vec::new();
                assert(e@ =~= id_range(start as int, start + n));
                e
            };
            v.push(m.msg_id);
            v
        },
        None => id_range_vec(start, m.msg_id),
    };
    PurgeOutcome::Delete(ids, !silent)
}

/// Handle /purge command - delete messages from reply to now.
///
/// Usage:
/// - /purge - delete from replied message to current
/// - /purge <N> - delete N messages after replied message
pub fn purge_command(m: &CommandMsg, can_delete: Option<bool>) -> (r: PurgeOutcome)
    requires
        purge_reads_count(*m, can_delete) ==> purge_fits(*m),
    ensures
        r@ == spec_purge(*m, false, can_delete),
{
    purge_action(m, false, can_delete)
}

/// Handle /spurge command - silent purge (no confirmation).
pub fn spurge_command(m: &CommandMsg, can_delete: Option<bool>) -> (r: PurgeOutcome)
    requires
        purge_reads_count(*m, can_delete) ==> purge_fits(*m),
    ensures
        r@ == spec_purge(*m, true, can_delete),
{
    purge_action(m, true, can_delete)
}

/// `✅ Berhasil menghapus N pesan.`, sent when something was deleted and
/// the command is not silent.
pub fn confirmation(confirm: bool, deleted: usize) -> (r: Option<Text>)
    ensures
        match r {
            Some(t) => confirm && deleted > 0 && t@ == TextModel::Plain(
                "✅ Berhasil menghapus "@ + dec(deleted as nat) + " pesan."@,
            ),
            None => !confirm || deleted == 0,
        },
{
    if confirm && deleted > 0 {
        let v = concat_vec(
            &concat_vec(&chars_of("✅ Berhasil menghapus "), &u64_dec(deleted as u64)),
            &chars_of(" pesan."),
        );
        Some(Text::Plain(string_of(&v)))
    } else {
        None
    }
}

/// /del: deletes the replied message and the command.
pub open spec fn spec_del(m: CommandMsg, can_delete: Option<bool>) -> PurgeModel {
    if !m.in_group {
        PurgeModel::Ignore
    } else {
        match can_delete {
            None => PurgeModel::Ask(Query::CanDeleteMessages),
            Some(false) => PurgeModel::Reply(no_delete_right()),
            Some(true) => match m.reply {
                None => PurgeModel::Reply(TextModel::Plain("❌ Reply ke pesan yang ingin dihapus."@)),
                Some(r) => PurgeModel::DeleteQuietly(seq![r.msg_id, m.msg_id]),
            },
        }
    }
}

/// Handle /del command - delete the replied message.
pub fn del_command(m: &CommandMsg, can_delete: Option<bool>) -> (r: PurgeOutcome)
    ensures
        r@ == spec_del(*m, can_delete),
{
    if !m.in_group {
        return PurgeOutcome::Ignore;
    }
    match can_delete {
        None => PurgeOutcome::Ask(Query::CanDeleteMessages),
        Some(false) => PurgeOutcome::Reply(
            Text::Plain("❌ Anda tidak memiliki izin untuk menghapus pesan.".to_owned()),
        ),
        Some(true) => match &m.reply {
            None => PurgeOutcome::Reply(Text::Plain("❌ Reply ke pesan yang ingin dihapus.".to_owned())),
            Some(r) => {
                let mut v: Vec<i32> = Vec::new();
                v.push(r.msg_id);
                v.push(m.msg_id);
                assert(v@ =~= seq![r.msg_id, m.msg_id]);
                PurgeOutcome::DeleteQuietly(v)
            },
        },
    }
}

/// /purgefrom: marks the replied message as the start.
pub open spec fn spec_purgefrom(m: CommandMsg, can_delete: Option<bool>) -> PurgeModel {
    if !m.in_group {
        PurgeModel::Ignore
    } else {
        match can_delete {
            None => PurgeModel::Ask(Query::CanDeleteMessages),
            Some(false) => PurgeModel::Reply(no_delete_right()),
            Some(true) => match m.reply {
                None => PurgeModel::Reply(
                    TextModel::Plain("❌ Reply ke pesan untuk menandai titik awal purge."@),
                ),
                Some(_) => PurgeModel::Marked(
                    TextModel::Plain(
                        "📍 Titik awal purge ditandai. Gunakan /purgeto untuk menghapus range."@,
                    ),
                ),
            },
        }
    }
}

/// Handle /purgefrom command - mark starting point for range purge. The
/// mark is stored only when the command succeeds.
pub fn purgefrom_command(m: &CommandMsg, chat_id: i64, can_delete: Option<bool>, markers: &mut PurgeMarkers) -> (r:
    PurgeOutcome)
    ensures
        r@ == spec_purgefrom(*m, can_delete),
        final(markers)@ == if r@ is Marked {
            old(markers)@.insert(chat_id, m.reply.unwrap().msg_id)
        } else {
            old(markers)@
        },
{
    if !m.in_group {
        return PurgeOutcome::Ignore;
    }
    match can_delete {
        None => PurgeOutcome::Ask(Query::CanDeleteMessages),
        Some(false) => PurgeOutcome::Reply(
            Text::Plain("❌ Anda tidak memiliki izin untuk menghapus pesan.".to_owned()),
        ),
        Some(true) => match &m.reply {
            None => PurgeOutcome::Reply(
                Text::Plain("❌ Reply ke pesan untuk menandai titik awal purge.".to_owned()),
            ),
            Some(r) => {
                markers.mark(chat_id, r.msg_id);
                PurgeOutcome::Marked(
                    Text::Plain(
                        "📍 Titik awal purge ditandai. Gunakan /purgeto untuk menghapus range.".to_owned(),
                    ),
                )
            },
        },
    }
}

/// The messages /purgeto deletes: every message between the mark and the
/// replied message (in either order), then the command.
pub open spec fn purgeto_ids(start: i32, end: i32, cmd: i32) -> Seq<i32> {
    if start <= end {
        id_range(start as int, end as int).push(cmd)
    } else {
        id_range(end as int, start as int).push(cmd)
    }
}

/// /purgeto: deletes from the chat's mark to the replied message; the mark
/// is consumed.
pub open spec fn spec_purgeto(m: CommandMsg, can_delete: Option<bool>, mark: Option<i32>) -> PurgeModel {
    if !m.in_group {
        PurgeModel::Ignore
    } else {
        match can_delete {
            None => PurgeModel::Ask(Query::CanDeleteMessages),
            Some(false) => PurgeModel::Reply(no_delete_right()),
            Some(true) => match m.reply {
                None => PurgeModel::Reply(
                    TextModel::Plain("❌ Reply ke pesan untuk menandai titik akhir purge."@),
                ),
                Some(r) => match mark {
                    None => PurgeModel::Reply(
                        TextModel::Plain("❌ Tidak ada titik awal. Gunakan /purgefrom dulu."@),
                    ),
                    Some(s) => PurgeModel::Delete(purgeto_ids(s, r.msg_id, m.msg_id), true),
                },
            },
        }
    }
}

/// Whether /purgeto gets as far as reading the mark.
pub open spec fn purgeto_reads_mark(m: CommandMsg, can_delete: Option<bool>) -> bool {
    m.in_group && can_delete == Some(true) && m.reply is Some
}

/// Handle /purgeto command - delete from marked purgefrom to this reply.
pub fn purgeto_command(m: &CommandMsg, chat_id: i64, can_delete: Option<bool>, markers: &mut PurgeMarkers) -> (r:
    PurgeOutcome)
    ensures
        purgeto_reads_mark(*m, can_delete) ==> r@ == spec_purgeto(
            *m,
            can_delete,
            if old(markers)@.contains_key(chat_id) {
                Some(old(markers)@[chat_id])
            } else {
                None
            },
        ) && final(markers)@ == old(markers)@.remove(chat_id),
        !purgeto_reads_mark(*m, can_delete) ==> r@ == spec_purgeto(*m, can_delete, None)
            && final(markers)@ == old(markers)@,
{
    if !m.in_group {
        return PurgeOutcome::Ignore;
    }
    match can_delete {
        None => {
            return PurgeOutcome::Ask(Query::CanDeleteMessages);
        },
        Some(false) => {
            return PurgeOutcome::Reply(
                Text::Plain("❌ Anda tidak memiliki izin untuk menghapus pesan.".to_owned()),
            );
        },
        Some(true) => {},
    }
    let end = match &m.reply {
        None => {
            return PurgeOutcome::Reply(
                Text::Plain("❌ Reply ke pesan untuk menandai titik akhir purge.".to_owned()),
            );
        },
        Some(r) => r.msg_id,
    };
    let start = match markers.take(chat_id) {
        None => {
            return PurgeOutcome::Reply(
                Text::Plain("❌ Tidak ada titik awal. Gunakan /purgefrom dulu.".to_owned()),
            );
        },
        Some(s) => s,
    };
    let mut ids = if start <= end {
        id_range_vec(start, end)
    } else {
        id_range_vec(end, start)
    };
    ids.push(m.msg_id);
    PurgeOutcome::Delete(ids, true)
}

} // verus!
