//! Antiflood command handlers.
//!
//! Commands for configuring antiflood protection in groups. Each command
//! is decided step by step: it asks for the sender's right to change the
//! chat's info, then for the chat's settings, and answers or saves.

use vstd::prelude::*;
use crate::plugins::common::{
    CommandMsg, Fragment, FragmentModel, Query, Text, TextModel, args_of, args_vec, fragment_model,
    key_text, params_model, push_fragment, push_plain,
};
use crate::text::{
    ascii_fold, chars_of, dec, fold_char, lower_eq, lower_eq_vec, parse_u32_vec, parse_u64_vec,
    parse_unsigned, slice_vec, u64_dec, views,
};

verus! {

/// What happens to a user who floods.
#[derive(Debug, Clone, Copy, PartialEq, Eq, Structural)]
pub enum FloodPenalty {
    Warn,
    Mute,
    Kick,
    TempBan,
    Ban,
}

/// A chat's antiflood settings.
#[derive(Debug, Clone, Copy, PartialEq, Eq, Structural)]
pub struct AntifloodConfig {
    pub enabled: bool,
    /// Messages allowed within the window.
    pub max_messages: u32,
    pub time_window_secs: u32,
    pub warnings_before_penalty: u32,
    pub penalty: FloodPenalty,
    /// How long a timed penalty lasts; 0 for ever.
    pub penalty_duration_secs: u64,
}

/// The translation key naming a penalty.
pub open spec fn penalty_key(p: FloodPenalty) -> Seq<char> {
    match p {
        FloodPenalty::Warn => "antiflood.penalty_warn"@,
        FloodPenalty::Mute => "antiflood.penalty_mute"@,
        FloodPenalty::Kick => "antiflood.penalty_kick"@,
        FloodPenalty::TempBan => "antiflood.penalty_tempban"@,
        FloodPenalty::Ban => "antiflood.penalty_ban"@,
    }
}

/// The penalty's name: the translation of its key.
pub fn penalty_to_string(penalty: FloodPenalty) -> (f: Fragment)
    ensures
        fragment_model(f) == FragmentModel::Key(penalty_key(penalty), Seq::empty()),
{
    let key = match penalty {
        FloodPenalty::Warn => "antiflood.penalty_warn",
        FloodPenalty::Mute => "antiflood.penalty_mute",
        FloodPenalty::Kick => "antiflood.penalty_kick",
        FloodPenalty::TempBan => "antiflood.penalty_tempban",
        FloodPenalty::Ban => "antiflood.penalty_ban",
    };
    let f = Fragment::Key(key.to_owned(), Vec::new());
    assert(crate::plugins::common::pairs_model(Seq::<(String, String)>::empty()) =~= Seq::empty());
    f
}

/// A penalty duration in words: permanent for 0, else in the largest whole
/// unit below it (seconds under a minute, minutes under an hour, hours under
/// a day, else days), rounded down.
pub open spec fn spec_duration_to_string(secs: nat) -> FragmentModel {
    if secs == 0 {
        FragmentModel::Key("antiflood.duration_permanent"@, Seq::empty())
    } else if secs < 60 {
        FragmentModel::Key("antiflood.duration_seconds"@, seq![("{seconds}"@, dec(secs))])
    } else if secs < 3600 {
        FragmentModel::Key("antiflood.duration_minutes"@, seq![("{minutes}"@, dec(secs / 60))])
    } else if secs < 86400 {
        FragmentModel::Key("antiflood.duration_hours"@, seq![("{hours}"@, dec(secs / 3600))])
    } else {
        FragmentModel::Key("antiflood.duration_days"@, seq![("{days}"@, dec(secs / 86400))])
    }
}

fn unit_fragment(key: &str, p: &str, n: u64) -> (f: Fragment)
    ensures
        fragment_model(f) == FragmentModel::Key(key@, seq![(p@, dec(n as nat))]),
{
    let mut ps: Vec<(String, String)> = Vec::new();
    ps.push((p.to_owned(), crate::text::string_of(&u64_dec(n))));
    assert(crate::plugins::common::pairs_model(ps@) =~= seq![(p@, dec(n as nat))]);
    Fragment::Key(key.to_owned(), ps)
}

pub fn duration_to_string(secs: u64) -> (f: Fragment)
    ensures
        fragment_model(f) == spec_duration_to_string(secs as nat),
{
    if secs == 0 {
        let f = Fragment::Key("antiflood.duration_permanent".to_owned(), Vec::new());
        assert(crate::plugins::common::pairs_model(Seq::<(String, String)>::empty()) =~= Seq::empty());
        f
    } else if secs < 60 {
        unit_fragment("antiflood.duration_seconds", "{seconds}", secs)
    } else if secs < 3600 {
        unit_fragment("antiflood.duration_minutes", "{minutes}", secs / 60)
    } else if secs < 86400 {
        unit_fragment("antiflood.duration_hours", "{hours}", secs / 3600)
    } else {
        unit_fragment("antiflood.duration_days", "{days}", secs / 86400)
    }
}

/// The text with every character folded as `to_lowercase` does for ASCII.
pub open spec fn folded(s: Seq<char>) -> Seq<char> {
    s.map_values(|c: char| ascii_fold(c))
}

/// A penalty duration: a number with an optional unit (`s`, `m`, `h`,
/// `d`, in any case), in seconds.
pub open spec fn spec_flood_duration(s: Seq<char>) -> Option<nat> {
    let f = folded(s);
    let k: nat = if f.len() > 0 && f.last() == 'm' {
        60
    } else if f.len() > 0 && f.last() == 'h' {
        3600
    } else if f.len() > 0 && f.last() == 'd' {
        86400
    } else {
        1
    };
    let digits = if f.len() > 0 && (f.last() == 's' || f.last() == 'm' || f.last() == 'h' || f.last()
        == 'd') {
        f.drop_last()
    } else {
        f
    };
    match parse_unsigned(digits, u64::MAX as nat) {
        Some(n) => Some(n * k),
        None => None,
    }
}

/// The duration is read without overflowing `u64`.
pub open spec fn flood_duration_fits(s: Seq<char>) -> bool {
    spec_flood_duration(s) matches Some(n) ==> n <= u64::MAX
}

fn fold_vec(s: &Vec<char>) -> (r: Vec<char>)
    ensures
        r@ == folded(s@),
{
    let mut r: Vec<char> = Vec::new();
    let mut i: usize = 0;
    while i < s.len()
        invariant
            i <= s.len(),
            r@ == folded(s@.take(i as int)),
        decreases s.len() - i,
    {
        let ghost o = r@;
        r.push(fold_char(s[i]));
        assert(folded(s@.take(i + 1)) =~= folded(s@.take(i as int)).push(ascii_fold(s@[i as int])));
        i = i + 1;
    }
    assert(s@.take(s.len() as int) =~= s@);
    r
}

/// Parse duration string like "5m", "1h", "30s" to seconds.
/// The number of a penalty duration and the seconds of its unit.
fn flood_parts(s: &Vec<char>) -> (r: (Option<u64>, u64))
    ensures
        r.1 > 0,
        match r.0 {
            Some(a) => spec_flood_duration(s@) == Some(a as nat * r.1 as nat),
            None => spec_flood_duration(s@) is None,
        },
{
    let f = fold_vec(s);
    let n = f.len();
    let last_unit = n > 0 && (f[n - 1] == 's' || f[n - 1] == 'm' || f[n - 1] == 'h' || f[n - 1] == 'd');
    let k: u64 = if n > 0 && f[n - 1] == 'm' {
        60
    } else if n > 0 && f[n - 1] == 'h' {
        3600
    } else if n > 0 && f[n - 1] == 'd' {
        86400
    } else {
        1
    };
    let digits = if last_unit {
        slice_vec(&f, 0, n - 1)
    } else {
        f
    };
    proof {
        if last_unit {
            assert(digits@ =~= folded(s@).drop_last());
        }
    }
    match parse_u64_vec(&digits) {
        Some(a) => {
            assert(spec_flood_duration(s@) == Some(a as nat * k as nat));
            (Some(a), k)
        },
        None => (None, k),
    }
}

pub fn parse_duration(s: &Vec<char>) -> (r: Option<u64>)
    requires
        flood_duration_fits(s@),
    ensures
        match r {
            Some(n) => spec_flood_duration(s@) == Some(n as nat),
            None => spec_flood_duration(s@) is None,
        },
{
    match flood_parts(s) {
        (Some(a), k) => Some(a * k),
        (None, _) => None,
    }
}

/// Whether a penalty duration is read without overflowing `u64`.
pub fn flood_duration_checked(s: &Vec<char>) -> (b: bool)
    ensures
        b == flood_duration_fits(s@),
{
    match flood_parts(s) {
        (Some(a), k) => {
            let fits = a <= u64::MAX / k;
            assert(fits <==> a as nat * k as nat <= u64::MAX) by (nonlinear_arith)
                requires
                    fits == (a <= u64::MAX / k),
                    k > 0,
            ;
            fits
        },
        (None, _) => true,
    }
}

/// The penalty a word names, in any case.
pub open spec fn penalty_named(s: Seq<char>) -> Option<FloodPenalty> {
    if lower_eq(s, "warn"@) {
        Some(FloodPenalty::Warn)
    } else if lower_eq(s, "mute"@) {
        Some(FloodPenalty::Mute)
    } else if lower_eq(s, "kick"@) {
        Some(FloodPenalty::Kick)
    } else if lower_eq(s, "tempban"@) || lower_eq(s, "tban"@) {
        Some(FloodPenalty::TempBan)
    } else if lower_eq(s, "ban"@) {
        Some(FloodPenalty::Ban)
    } else {
        None
    }
}

fn penalty_of(s: &Vec<char>) -> (r: Option<FloodPenalty>)
    ensures
        r == penalty_named(s@),
{
    if lower_eq_vec(s, &chars_of("warn")) {
        Some(FloodPenalty::Warn)
    } else if lower_eq_vec(s, &chars_of("mute")) {
        Some(FloodPenalty::Mute)
    } else if lower_eq_vec(s, &chars_of("kick")) {
        Some(FloodPenalty::Kick)
    } else if lower_eq_vec(s, &chars_of("tempban")) || lower_eq_vec(s, &chars_of("tban")) {
        Some(FloodPenalty::TempBan)
    } else if lower_eq_vec(s, &chars_of("ban")) {
        Some(FloodPenalty::Ban)
    } else {
        None
    }
}

/// The decision of an antiflood command.
#[derive(Debug, Clone, PartialEq, Eq)]
pub enum FloodOutcome {
    Ignore,
    Ask(Query),
    /// Read the chat's settings and call again with them.
    LoadConfig,
    /// Reply with the text (as HTML when the flag is set).
    Reply(Text, bool),
    /// Save these settings, then reply with the text (HTML when set).
    Save(AntifloodConfig, Text, bool),
}

pub enum FloodModel {
    Ignore,
    Ask(Query),
    LoadConfig,
    Reply(TextModel, bool),
    Save(AntifloodConfig, TextModel, bool),
}

impl View for FloodOutcome {
    type V = FloodModel;

    open spec fn view(&self) -> FloodModel {
        match self {
            FloodOutcome::Ignore => FloodModel::Ignore,
            FloodOutcome::Ask(q) => FloodModel::Ask(*q),
            FloodOutcome::LoadConfig => FloodModel::LoadConfig,
            FloodOutcome::Reply(t, h) => FloodModel::Reply(t@, *h),
            FloodOutcome::Save(c, t, h) => FloodModel::Save(*c, t@, *h),
        }
    }
}

pub open spec fn key_only(k: Seq<char>) -> TextModel {
    TextModel::Key(k, Seq::empty())
}

/// The status of enabled antiflood.
pub open spec fn status_text(c: AntifloodConfig) -> TextModel {
    TextModel::Key(
        "antiflood.status_enabled"@,
        seq![
            ("{limit}"@, FragmentModel::Plain(dec(c.max_messages as nat))),
            ("{seconds}"@, FragmentModel::Plain(dec(c.time_window_secs as nat))),
            ("{warns}"@, FragmentModel::Plain(dec(c.warnings_before_penalty as nat))),
            ("{penalty}"@, FragmentModel::Key(penalty_key(c.penalty), Seq::empty())),
            ("{duration}"@, spec_duration_to_string(c.penalty_duration_secs as nat)),
        ],
    )
}

/// /antiflood: shows the status without argument, turns protection on
/// (`on`, `enable`) or off (`off`, `disable`), else shows the usage.
pub open spec fn spec_antiflood(m: CommandMsg, can_change: Option<bool>, config: Option<AntifloodConfig>) -> FloodModel {
    let args = args_of(m);
    if m.from is None {
        FloodModel::Ignore
    } else if !m.in_group {
        FloodModel::Reply(key_only("antiflood.error_group_only"@), false)
    } else {
        match can_change {
            None => FloodModel::Ask(Query::CanChangeInfo),
            Some(false) => FloodModel::Reply(key_only("antiflood.error_permission"@), false),
            Some(true) => match config {
                None => FloodModel::LoadConfig,
                Some(c) => if args.len() == 0 {
                    FloodModel::Reply(
                        if c.enabled {
                            status_text(c)
                        } else {
                            key_only("antiflood.status_disabled"@)
                        },
                        true,
                    )
                } else if lower_eq(args[0], "on"@) || lower_eq(args[0], "enable"@) {
                    FloodModel::Save(AntifloodConfig { enabled: true, ..c }, key_only("antiflood.enabled"@), false)
                } else if lower_eq(args[0], "off"@) || lower_eq(args[0], "disable"@) {
                    FloodModel::Save(
                        AntifloodConfig { enabled: false, ..c },
                        key_only("antiflood.disabled"@),
                        false,
                    )
                } else {
                    FloodModel::Reply(key_only("antiflood.usage"@), true)
                },
            },
        }
    }
}

fn status_text_of(c: AntifloodConfig) -> (t: Text)
    ensures
        t@ == status_text(c),
{
    let mut ps: Vec<(String, Fragment)> = Vec::new();
    push_plain(&mut ps, "{limit}", u64_dec(c.max_messages as u64));
    push_plain(&mut ps, "{seconds}", u64_dec(c.time_window_secs as u64));
    push_plain(&mut ps, "{warns}", u64_dec(c.warnings_before_penalty as u64));
    push_fragment(&mut ps, "{penalty}", penalty_to_string(c.penalty));
    push_fragment(&mut ps, "{duration}", duration_to_string(c.penalty_duration_secs));
    assert(params_model(ps@) =~= seq![
        ("{limit}"@, FragmentModel::Plain(dec(c.max_messages as nat))),
        ("{seconds}"@, FragmentModel::Plain(dec(c.time_window_secs as nat))),
        ("{warns}"@, FragmentModel::Plain(dec(c.warnings_before_penalty as nat))),
        ("{penalty}"@, FragmentModel::Key(penalty_key(c.penalty), Seq::empty())),
        ("{duration}"@, spec_duration_to_string(c.penalty_duration_secs as nat)),
    ]);
    Text::Key("antiflood.status_enabled".to_owned(), ps)
}

/// Handle /antiflood command - show or toggle antiflood.
pub fn antiflood_command(m: &CommandMsg, can_change: Option<bool>, config: Option<AntifloodConfig>) -> (r:
    FloodOutcome)
    ensures
        r@ == spec_antiflood(*m, can_change, config),
{
    if m.from.is_none() {
        return FloodOutcome::Ignore;
    }
    if !m.in_group {
        return FloodOutcome::Reply(key_text("antiflood.error_group_only"), false);
    }
    match can_change {
        None => FloodOutcome::Ask(Query::CanChangeInfo),
        Some(false) => FloodOutcome::Reply(key_text("antiflood.error_permission"), false),
        Some(true) => match config {
            None => FloodOutcome::LoadConfig,
            Some(c) => {
                let args = args_vec(m);
                if args.len() == 0 {
                    if c.enabled {
                        FloodOutcome::Reply(status_text_of(c), true)
                    } else {
                        FloodOutcome::Reply(key_text("antiflood.status_disabled"), true)
                    }
                } else if lower_eq_vec(&args[0], &chars_of("on")) || lower_eq_vec(
                    &args[0],
                    &chars_of("enable"),
                ) {
                    FloodOutcome::Save(AntifloodConfig { enabled: true, ..c }, key_text("antiflood.enabled"), false)
                } else if lower_eq_vec(&args[0], &chars_of("off")) || lower_eq_vec(
                    &args[0],
                    &chars_of("disable"),
                ) {
                    FloodOutcome::Save(
                        AntifloodConfig { enabled: false, ..c },
                        key_text("antiflood.disabled"),
                        false,
                    )
                } else {
                    FloodOutcome::Reply(key_text("antiflood.usage"), true)
                }
            },
        },
    }
}

/// The confirmation of a new limit.
pub open spec fn limit_set_text(count: nat, window: nat) -> TextModel {
    TextModel::Key(
        "antiflood.limit_set"@,
        seq![
            ("{count}"@, FragmentModel::Plain(dec(count))),
            ("{seconds}"@, FragmentModel::Plain(dec(window))),
        ],
    )
}

fn limit_set_of(count: u32, window: u32) -> (t: Text)
    ensures
        t@ == limit_set_text(count as nat, window as nat),
{
    let mut ps: Vec<(String, Fragment)> = Vec::new();
    push_plain(&mut ps, "{count}", u64_dec(count as u64));
    push_plain(&mut ps, "{seconds}", u64_dec(window as u64));
    assert(params_model(ps@) =~= seq![
        ("{count}"@, FragmentModel::Plain(dec(count as nat))),
        ("{seconds}"@, FragmentModel::Plain(dec(window as nat))),
    ]);
    Text::Key("antiflood.limit_set".to_owned(), ps)
}

/// /setflood off turns protection off; /setflood <count> sets the limit
/// (2..=100) and keeps the window; /setflood <count> <seconds> sets both,
/// the window within 1..=300 seconds.
pub open spec fn spec_setflood(m: CommandMsg, can_change: Option<bool>, config: Option<AntifloodConfig>) -> FloodModel {
    let args = args_of(m);
    if m.from is None || !m.in_group {
        FloodModel::Ignore
    } else {
        match can_change {
            None => FloodModel::Ask(Query::CanChangeInfo),
            Some(false) => FloodModel::Reply(key_only("antiflood.error_permission"@), false),
            Some(true) => if args.len() == 0 {
                FloodModel::Reply(key_only("antiflood.setflood_usage"@), true)
            } else if lower_eq(args[0], "off"@) {
                match config {
                    None => FloodModel::LoadConfig,
                    Some(c) => FloodModel::Save(
                        AntifloodConfig { enabled: false, ..c },
                        key_only("antiflood.disabled"@),
                        false,
                    ),
                }
            } else {
                match parse_unsigned(args[0], u32::MAX as nat) {
                    Some(count) if 2 <= count <= 100 => if args.len() == 1 {
                        match config {
                            None => FloodModel::LoadConfig,
                            Some(c) => FloodModel::Save(
                                AntifloodConfig { max_messages: count as u32, ..c },
                                limit_set_text(count, c.time_window_secs as nat),
                                true,
                            ),
                        }
                    } else {
                        match parse_unsigned(args[1], u32::MAX as nat) {
                            Some(window) if 1 <= window <= 300 => match config {
                                None => FloodModel::LoadConfig,
                                Some(c) => FloodModel::Save(
                                    AntifloodConfig {
                                        max_messages: count as u32,
                                        time_window_secs: window as u32,
                                        ..c
                                    },
                                    limit_set_text(count, window),
                                    true,
                                ),
                            },
                            _ => FloodModel::Reply(key_only("antiflood.error_limit_time"@), false),
                        }
                    },
                    _ => FloodModel::Reply(key_only("antiflood.error_limit_count"@), false),
                }
            },
        }
    }
}

/// Handle /setflood command - set flood limits.
pub fn setflood_command(m: &CommandMsg, can_change: Option<bool>, config: Option<AntifloodConfig>) -> (r:
    FloodOutcome)
    ensures
        r@ == spec_setflood(*m, can_change, config),
{
    if m.from.is_none() || !m.in_group {
        return FloodOutcome::Ignore;
    }
    match can_change {
        None => {
            return FloodOutcome::Ask(Query::CanChangeInfo);
        },
        Some(false) => {
            return FloodOutcome::Reply(key_text("antiflood.error_permission"), false);
        },
        Some(true) => {},
    }
    let args = args_vec(m);
    if args.len() == 0 {
        return FloodOutcome::Reply(key_text("antiflood.setflood_usage"), true);
    }
    assert(views(args@)[0] == args@[0]@);
    if lower_eq_vec(&args[0], &chars_of("off")) {
        return match config {
            None => FloodOutcome::LoadConfig,
            Some(c) => FloodOutcome::Save(
                AntifloodConfig { enabled: false, ..c },
                key_text("antiflood.disabled"),
                false,
            ),
        };
    }
    let count = match parse_u32_vec(&args[0]) {
        Some(n) if 2 <= n && n <= 100 => n,
        _ => {
            return FloodOutcome::Reply(key_text("antiflood.error_limit_count"), false);
        },
    };
    if args.len() == 1 {
        return match config {
            None => FloodOutcome::LoadConfig,
            Some(c) => FloodOutcome::Save(
                AntifloodConfig { max_messages: count, ..c },
                limit_set_of(count, c.time_window_secs),
                true,
            ),
        };
    }
    assert(views(args@)[1] == args@[1]@);
    let window = match parse_u32_vec(&args[1]) {
        Some(n) if 1 <= n && n <= 300 => n,
        _ => {
            return FloodOutcome::Reply(key_text("antiflood.error_limit_time"), false);
        },
    };
    match config {
        None => FloodOutcome::LoadConfig,
        Some(c) => FloodOutcome::Save(
            AntifloodConfig { max_messages: count, time_window_secs: window, ..c },
            limit_set_of(count, window),
            true,
        ),
    }
}

/// The duration /setfloodpenalty sets: the second argument read as a
/// duration, 300 seconds when it is missing or unreadable.
pub open spec fn penalty_secs(args: Seq<Seq<char>>) -> nat {
    if args.len() > 1 {
        match spec_flood_duration(args[1]) {
            Some(n) => n,
            None => 300,
        }
    } else {
        300
    }
}

/// The arguments of /setfloodpenalty read without overflow.
pub open spec fn penalty_args_fit(m: CommandMsg) -> bool {
    args_of(m).len() > 1 ==> flood_duration_fits(args_of(m)[1])
}

/// /setfloodpenalty gets as far as reading the duration: a sender with
/// the right to change chat info names a penalty.
pub open spec fn penalty_reads_duration(m: CommandMsg, can_change: Option<bool>) -> bool {
    m.from is Some && can_change == Some(true) && args_of(m).len() > 0 && penalty_named(args_of(m)[0]) is Some
}

/// Whether /setfloodpenalty, where it reads the duration, reads it without
/// overflow.
pub fn penalty_duration_fits(m: &CommandMsg, can_change: Option<bool>) -> (b: bool)
    ensures
        b == (penalty_reads_duration(*m, can_change) ==> penalty_args_fit(*m)),
{
    if m.from.is_some() && can_change == Some(true) {
        let args = args_vec(m);
        if args.len() > 0 {
            assert(views(args@)[0] == args@[0]@);
            if penalty_of(&args[0]).is_some() {
                return penalty_args_checked(m);
            }
        }
    }
    true
}

/// Whether the arguments of /setfloodpenalty are read without overflow.
pub fn penalty_args_checked(m: &CommandMsg) -> (b: bool)
    ensures
        b == penalty_args_fit(*m),
{
    let args = args_vec(m);
    if args.len() > 1 {
        assert(views(args@)[1] == args@[1]@);
        flood_duration_checked(&args[1])
    } else {
        true
    }
}

/// /setfloodpenalty <penalty> [duration].
pub open spec fn spec_setfloodpenalty(
    m: CommandMsg,
    can_change: Option<bool>,
    config: Option<AntifloodConfig>,
) -> FloodModel {
    let args = args_of(m);
    if m.from is None {
        FloodModel::Ignore
    } else {
        match can_change {
            None => FloodModel::Ask(Query::CanChangeInfo),
            Some(false) => FloodModel::Reply(key_only("antiflood.error_permission"@), false),
            Some(true) => if args.len() == 0 {
                FloodModel::Reply(key_only("antiflood.setpenalty_usage"@), true)
            } else {
                match penalty_named(args[0]) {
                    None => FloodModel::Reply(key_only("antiflood.error_penalty_type"@), false),
                    Some(p) => match config {
                        None => FloodModel::LoadConfig,
                        Some(c) => FloodModel::Save(
                            AntifloodConfig {
                                penalty: p,
                                penalty_duration_secs: penalty_secs(args) as u64,
                                ..c
                            },
                            TextModel::Key(
                                "antiflood.penalty_set"@,
                                seq![
                                    ("{penalty}"@, FragmentModel::Key(penalty_key(p), Seq::empty())),
                                    ("{duration}"@, spec_duration_to_string(penalty_secs(args))),
                                ],
                            ),
                            true,
                        ),
                    },
                }
            },
        }
    }
}

/// Handle /setfloodpenalty command.
pub fn setfloodpenalty_command(
    m: &CommandMsg,
    can_change: Option<bool>,
    config: Option<AntifloodConfig>,
) -> (r: FloodOutcome)
    requires
        penalty_reads_duration(*m, can_change) ==> penalty_args_fit(*m),
    ensures
        r@ == spec_setfloodpenalty(*m, can_change, config),
{
    if m.from.is_none() {
        return FloodOutcome::Ignore;
    }
    match can_change {
        None => {
            return FloodOutcome::Ask(Query::CanChangeInfo);
        },
        Some(false) => {
            return FloodOutcome::Reply(key_text("antiflood.error_permission"), false);
        },
        Some(true) => {},
    }
    let args = args_vec(m);
    if args.len() == 0 {
        return FloodOutcome::Reply(key_text("antiflood.setpenalty_usage"), true);
    }
    let p = match penalty_of(&args[0]) {
        Some(p) => p,
        None => {
            return FloodOutcome::Reply(key_text("antiflood.error_penalty_type"), false);
        },
    };
    let secs: u64 = if args.len() > 1 {
        assert(views(args@)[1] == args@[1]@);
        match parse_duration(&args[1]) {
            Some(n) => n,
            None => 300,
        }
    } else {
        300
    };
    assert(secs as nat == penalty_secs(args_of(*m)));
    match config {
        None => FloodOutcome::LoadConfig,
        Some(c) => {
            let mut ps: Vec<(String, Fragment)> = Vec::new();
            push_fragment(&mut ps, "{penalty}", penalty_to_string(p));
            push_fragment(&mut ps, "{duration}", duration_to_string(secs));
            assert(params_model(ps@) =~= seq![
                ("{penalty}"@, FragmentModel::Key(penalty_key(p), Seq::empty())),
                ("{duration}"@, spec_duration_to_string(secs as nat)),
            ]);
            FloodOutcome::Save(
                AntifloodConfig { penalty: p, penalty_duration_secs: secs, ..c },
                Text::Key("antiflood.penalty_set".to_owned(), ps),
                true,
            )
        },
    }
}

} // verus!
