//! Environment variables that have moved into the configuration.
//!
//! A *deprecated* variable still works, below the setting that replaces it. A
//! *removed* variable does nothing. Either is reported when it is still set,
//! and so is a deprecated one whose value cannot be read. Every variable that
//! is not listed here belongs to the machine and stays a variable.

use vstd::prelude::*;

use crate::id_map::IdMap;
use crate::models::NodeTuningConfig;
use crate::number;
use crate::number::parse_unsigned;
use crate::text;

verus! {

/// What became of a variable that is still set.
#[derive(Debug, Clone, Copy, PartialEq, Eq)]
pub enum EnvStatus {
    /// Still honoured, below the configuration.
    Deprecated,
    /// Read by nothing.
    Removed,
    /// Still read, but its value could not be, and was discarded.
    Unparseable,
}

impl EnvStatus {
    pub open spec fn text(self) -> Seq<char> {
        match self {
            EnvStatus::Deprecated => "deprecated"@,
            EnvStatus::Removed => "removed"@,
            EnvStatus::Unparseable => "unparseable"@,
        }
    }

    /// The stable name of the status in events.
    pub fn label(self) -> (r: &'static str)
        ensures
            r@ == self.text(),
    {
        match self {
            EnvStatus::Deprecated => "deprecated",
            EnvStatus::Removed => "removed",
            EnvStatus::Unparseable => "unparseable",
        }
    }
}

/// A variable that is set and should not be.
#[derive(Debug, Clone)]
pub struct DeprecatedEnvUse {
    /// The name of the variable.
    pub var: &'static str,
    /// What to set instead.
    pub replacement: &'static str,
    pub status: EnvStatus,
    /// The value that was found.
    pub value: String,
}

/// A reported variable, as a value.
pub struct EnvUse {
    pub var: Seq<char>,
    pub replacement: Seq<char>,
    pub status: EnvStatus,
    pub value: Seq<char>,
}

impl View for DeprecatedEnvUse {
    type V = EnvUse;

    open spec fn view(&self) -> EnvUse {
        EnvUse {
            var: self.var@,
            replacement: self.replacement@,
            status: self.status,
            value: self.value@,
        }
    }
}

/// The sentence for the operator.
pub open spec fn use_text(u: EnvUse) -> Seq<char> {
    match u.status {
        EnvStatus::Deprecated => u.var
            + " is deprecated and will be removed in a future release. It is still honoured for now, below the config. Set `"@
            + u.replacement
            + "` in the node's configuration (Manager → node → Configure → Tuning) and remove the environment variable."@,
        EnvStatus::Removed => u.var
            + " has been removed and does nothing — this host still sets it to "@
            + text::debug_text(u.value) + ", so its intent is NOT being applied. Use `"@
            + u.replacement + "` instead."@,
        EnvStatus::Unparseable => u.var + " is set to "@ + text::debug_text(u.value)
            + ", which could not be read as a value for it — it has been DISCARDED, not honoured. Set `"@
            + u.replacement
            + "` in the node's configuration (Manager → node → Configure → Tuning) and remove the environment variable."@,
    }
}

impl DeprecatedEnvUse {
    /// The sentence for the operator.
    pub fn message(&self) -> (r: String)
        ensures
            r@ == use_text(self@),
    {
        match self.status {
            EnvStatus::Deprecated => text::cat4(
                self.var,
                " is deprecated and will be removed in a future release. It is still honoured for now, below the config. Set `",
                self.replacement,
                "` in the node's configuration (Manager → node → Configure → Tuning) and remove the environment variable.",
            ),
            EnvStatus::Removed => text::cat6(
                self.var,
                " has been removed and does nothing — this host still sets it to ",
                text::debug_string(self.value.as_str()).as_str(),
                ", so its intent is NOT being applied. Use `",
                self.replacement,
                "` instead.",
            ),
            EnvStatus::Unparseable => text::cat6(
                self.var,
                " is set to ",
                text::debug_string(self.value.as_str()).as_str(),
                ", which could not be read as a value for it — it has been DISCARDED, not honoured. Set `",
                self.replacement,
                "` in the node's configuration (Manager → node → Configure → Tuning) and remove the environment variable.",
            ),
        }
    }
}

/// The variables that were removed, each with what to use instead.
pub open spec fn removed_table() -> Seq<(Seq<char>, Seq<char>)> {
    seq![
        ("BILBYCAST_ENABLE_SO_TXTIME"@, "BILBYCAST_ENABLE_TXTIME (the alias was collapsed onto one name)"@),
        ("BILBYCAST_EGRESS_PACING"@, "the per-output `egress_pacing` config field"@),
        ("BILBYCAST_EGRESS_BUFFER_MS"@, "the per-output `egress_buffer_ms` config field"@),
        ("BILBYCAST_EGRESS_RESIDENCE_MS"@, "the per-output `egress_buffer_ms` config field, which the residence is derived from"@),
        ("BILBYCAST_BOND_FWMARK_BASE"@, "BILBYCAST_BOND_RT_TABLE_BASE / BILBYCAST_BOND_RT_PRIO_BASE"@),
        ("BILBYCAST_TESTBED_TRACE_EVENTS"@, "RUST_LOG=info,bilbycast_edge::testbed_events=debug (the trace has its own tracing target, so the level selects it — note the leading `info`, since a bare target directive sets the global default to off)"@),
        ("BILBYCAST_INGRESS_BUFFER_MS"@, "tuning.ingress_dejitter_ms (this variable never had any effect)"@),
        ("BILBYCAST_MEDIA_PLAYER_INCREMENTAL_MP4"@, "nothing — the bounded incremental reader is unconditional in release builds. The whole-file demux it selected is retained for debug builds only, because its resident-memory cost is the OOM this replaced"@),
    ]
}

/// The variables that are deprecated, each with the setting that replaces it.
pub open spec fn deprecated_table() -> Seq<(Seq<char>, Seq<char>)> {
    seq![
        ("BILBYCAST_INGRESS_RESIDENCE_MS"@, "tuning.ingress_residence_ms"@),
        ("BILBYCAST_PROBE_SESSION_LIMITS"@, "tuning.probe_session_limits"@),
        ("BILBYCAST_PROBE_4K"@, "tuning.probe_4k"@),
        ("BILBYCAST_MEDIA_PLAYER_CONTROLLER"@, "tuning.media_player_controller (or per-input `operator_control`)"@),
        ("BILBYCAST_MEDIA_PLAYER_PCR_DEADLINES"@, "tuning.media_player_pcr_deadlines (or per-input `pcr_deadlines`)"@),
    ]
}

/// The texts of a table.
pub open spec fn table_view(t: Seq<(&'static str, &'static str)>) -> Seq<(Seq<char>, Seq<char>)> {
    t.map_values(|e: (&'static str, &'static str)| (e.0@, e.1@))
}

/// The variables that were removed, each with what to use instead.
pub fn removed_variables() -> (r: Vec<(&'static str, &'static str)>)
    ensures
        table_view(r@) == removed_table(),
{
    let r = vec![
        ("BILBYCAST_ENABLE_SO_TXTIME", "BILBYCAST_ENABLE_TXTIME (the alias was collapsed onto one name)"),
        ("BILBYCAST_EGRESS_PACING", "the per-output `egress_pacing` config field"),
        ("BILBYCAST_EGRESS_BUFFER_MS", "the per-output `egress_buffer_ms` config field"),
        ("BILBYCAST_EGRESS_RESIDENCE_MS", "the per-output `egress_buffer_ms` config field, which the residence is derived from"),
        ("BILBYCAST_BOND_FWMARK_BASE", "BILBYCAST_BOND_RT_TABLE_BASE / BILBYCAST_BOND_RT_PRIO_BASE"),
        ("BILBYCAST_TESTBED_TRACE_EVENTS", "RUST_LOG=info,bilbycast_edge::testbed_events=debug (the trace has its own tracing target, so the level selects it — note the leading `info`, since a bare target directive sets the global default to off)"),
        ("BILBYCAST_INGRESS_BUFFER_MS", "tuning.ingress_dejitter_ms (this variable never had any effect)"),
        ("BILBYCAST_MEDIA_PLAYER_INCREMENTAL_MP4", "nothing — the bounded incremental reader is unconditional in release builds. The whole-file demux it selected is retained for debug builds only, because its resident-memory cost is the OOM this replaced"),
    ];
    assert(table_view(r@) =~= removed_table());
    r
}

/// The variables that are deprecated, each with the setting that replaces it.
pub fn deprecated_variables() -> (r: Vec<(&'static str, &'static str)>)
    ensures
        table_view(r@) == deprecated_table(),
{
    let r = vec![
        ("BILBYCAST_INGRESS_RESIDENCE_MS", "tuning.ingress_residence_ms"),
        ("BILBYCAST_PROBE_SESSION_LIMITS", "tuning.probe_session_limits"),
        ("BILBYCAST_PROBE_4K", "tuning.probe_4k"),
        ("BILBYCAST_MEDIA_PLAYER_CONTROLLER", "tuning.media_player_controller (or per-input `operator_control`)"),
        ("BILBYCAST_MEDIA_PLAYER_PCR_DEADLINES", "tuning.media_player_pcr_deadlines (or per-input `pcr_deadlines`)"),
    ];
    assert(table_view(r@) =~= deprecated_table());
    r
}

/// The tuning that is in force.
#[derive(Debug, Clone, Copy, PartialEq, Eq)]
pub struct ResolvedTuning {
    pub ingress_dejitter_ms: Option<u32>,
    pub ingress_residence_ms: Option<u32>,
    pub probe_session_limits: bool,
    pub probe_4k: bool,
    pub media_player_controller: bool,
    pub media_player_pcr_deadlines: bool,
}

impl Default for ResolvedTuning {
    fn default() -> (r: Self)
        ensures
            r == (ResolvedTuning {
                ingress_dejitter_ms: None,
                ingress_residence_ms: None,
                probe_session_limits: true,
                probe_4k: true,
                media_player_controller: true,
                media_player_pcr_deadlines: true,
            }),
    {
        ResolvedTuning {
            ingress_dejitter_ms: None,
            ingress_residence_ms: None,
            probe_session_limits: true,
            probe_4k: true,
            media_player_controller: true,
            media_player_pcr_deadlines: true,
        }
    }
}

/// A switch is off for `0`, `false`, `no` and `off`, in letters of either case
/// and with white space around; everything else is on.
pub open spec fn flag_on(raw: Seq<char>) -> bool {
    let v = text::lower_text(text::trimmed(raw));
    !(v == "0"@ || v == "false"@ || v == "no"@ || v == "off"@)
}

/// Reads a switch.
pub fn env_flag(raw: &str) -> (r: bool)
    ensures
        r == flag_on(raw@),
{
    let v = text::trim(raw);
    !(text::lower_eq(v, "0") || text::lower_eq(v, "false") || text::lower_eq(v, "no")
        || text::lower_eq(v, "off"))
}

/// The number of milliseconds that a variable holds.
pub open spec fn millis_of(raw: Seq<char>) -> Option<nat> {
    number::unsigned_of(text::trimmed(raw), u32::MAX as nat)
}

/// The reports on the first `n` removed variables.
pub open spec fn removed_uses(env: Map<Seq<char>, String>, n: int) -> Seq<EnvUse>
    decreases n,
{
    if n <= 0 {
        Seq::empty()
    } else {
        let (var, replacement) = removed_table()[n - 1];
        removed_uses(env, n - 1) + if env.contains_key(var) {
            seq![EnvUse { var, replacement, status: EnvStatus::Removed, value: env[var]@ }]
        } else {
            Seq::empty()
        }
    }
}

/// The report on deprecated variable number `i`, if it is set.
pub open spec fn deprecated_use(env: Map<Seq<char>, String>, i: int) -> Seq<EnvUse> {
    let (var, replacement) = deprecated_table()[i];
    if env.contains_key(var) {
        let readable = i != 0 || millis_of(env[var]@) is Some;
        seq![
            EnvUse {
                var,
                replacement,
                status: if readable {
                    EnvStatus::Deprecated
                } else {
                    EnvStatus::Unparseable
                },
                value: env[var]@,
            },
        ]
    } else {
        Seq::empty()
    }
}

/// Everything that is reported, in order.
pub open spec fn reported(env: Map<Seq<char>, String>) -> Seq<EnvUse> {
    removed_uses(env, removed_table().len() as int) + deprecated_use(env, 0) + deprecated_use(env, 1)
        + deprecated_use(env, 2) + deprecated_use(env, 3) + deprecated_use(env, 4)
}

/// A switch: the configuration, otherwise the variable, otherwise on.
pub open spec fn resolved_flag(
    configured: Option<bool>,
    env: Map<Seq<char>, String>,
    var: Seq<char>,
) -> bool {
    match configured {
        Some(b) => b,
        None => if env.contains_key(var) {
            flag_on(env[var]@)
        } else {
            true
        },
    }
}

/// The tuning of a configuration without one.
pub open spec fn tuning_or_none(tuning: Option<&NodeTuningConfig>) -> NodeTuningConfig {
    match tuning {
        Some(t) => *t,
        None => NodeTuningConfig {
            ingress_dejitter_ms: None,
            ingress_residence_ms: None,
            probe_session_limits: None,
            probe_4k: None,
            media_player_controller: None,
            media_player_pcr_deadlines: None,
        },
    }
}

/// The tuning that is in force: the configuration wins, then the deprecated
/// variable, then the default.
pub open spec fn tuning_in_force(t: NodeTuningConfig, env: Map<Seq<char>, String>) -> ResolvedTuning {
    let residence = "BILBYCAST_INGRESS_RESIDENCE_MS"@;
    ResolvedTuning {
        ingress_dejitter_ms: t.ingress_dejitter_ms,
        ingress_residence_ms: match t.ingress_residence_ms {
            Some(ms) => Some(ms),
            None => if env.contains_key(residence) && millis_of(env[residence]@) is Some {
                Some(millis_of(env[residence]@)->0 as u32)
            } else {
                None
            },
        },
        probe_session_limits: resolved_flag(
            t.probe_session_limits,
            env,
            "BILBYCAST_PROBE_SESSION_LIMITS"@,
        ),
        probe_4k: resolved_flag(t.probe_4k, env, "BILBYCAST_PROBE_4K"@),
        media_player_controller: resolved_flag(
            t.media_player_controller,
            env,
            "BILBYCAST_MEDIA_PLAYER_CONTROLLER"@,
        ),
        media_player_pcr_deadlines: resolved_flag(
            t.media_player_pcr_deadlines,
            env,
            "BILBYCAST_MEDIA_PLAYER_PCR_DEADLINES"@,
        ),
    }
}

/// The reports as values.
pub open spec fn uses_of(found: Seq<DeprecatedEnvUse>) -> Seq<EnvUse> {
    found.map_values(|u: DeprecatedEnvUse| u@)
}

fn report(
    found: &mut Vec<DeprecatedEnvUse>,
    var: &'static str,
    replacement: &'static str,
    status: EnvStatus,
    value: &String,
)
    ensures
        uses_of(final(found)@) == uses_of(old(found)@) + seq![
            EnvUse { var: var@, replacement: replacement@, status, value: value@ },
        ],
{
    found.push(DeprecatedEnvUse { var, replacement, status, value: value.clone() });
    assert(uses_of(found@) =~= uses_of(old(found)@) + seq![
        EnvUse { var: var@, replacement: replacement@, status, value: value@ },
    ]);
}

fn report_removed(env: &IdMap<String>, found: &mut Vec<DeprecatedEnvUse>)
    ensures
        uses_of(final(found)@) == uses_of(old(found)@) + removed_uses(
            env@,
            removed_table().len() as int,
        ),
{
    let table = removed_variables();
    let ghost before = uses_of(found@);
    assert(before + removed_uses(env@, 0) =~= before);
    let mut i: usize = 0;
    while i < table.len()
        invariant
            i <= table@.len(),
            table_view(table@) == removed_table(),
            uses_of(found@) == before + removed_uses(env@, i as int),
        decreases table.len() - i,
    {
        let (var, replacement) = table[i];
        assert(table_view(table@)[i as int] == (var@, replacement@));
        if let Some(value) = env.get(var) {
            report(found, var, replacement, EnvStatus::Removed, value);
        }
        i = i + 1;
        assert(uses_of(found@) =~= before + removed_uses(env@, i as int));
    }
}

fn read_flag(
    env: &IdMap<String>,
    found: &mut Vec<DeprecatedEnvUse>,
    var: &'static str,
    replacement: &'static str,
) -> (r: Option<bool>)
    ensures
        r == (if env@.contains_key(var@) {
            Some(flag_on(env@[var@]@))
        } else {
            None
        }),
        uses_of(final(found)@) == uses_of(old(found)@) + if env@.contains_key(var@) {
            seq![
                EnvUse {
                    var: var@,
                    replacement: replacement@,
                    status: EnvStatus::Deprecated,
                    value: env@[var@]@,
                },
            ]
        } else {
            Seq::empty()
        },
{
    match env.get(var) {
        Some(value) => {
            report(found, var, replacement, EnvStatus::Deprecated, value);
            Some(env_flag(value.as_str()))
        },
        None => {
            assert(uses_of(found@) =~= uses_of(old(found)@) + Seq::empty());
            None
        },
    }
}

fn or_true(configured: Option<bool>, fallback: Option<bool>) -> (r: bool)
    ensures
        r == (match configured {
            Some(b) => b,
            None => match fallback {
                Some(b) => b,
                None => true,
            },
        }),
{
    match configured {
        Some(b) => b,
        None => match fallback {
            Some(b) => b,
            None => true,
        },
    }
}

/// The tuning that is in force, and a report on every variable of the tables
/// that is set in `env`. A variable is reported also where the configuration
/// overrides it.
pub fn resolve_tuning(tuning: Option<&NodeTuningConfig>, env: &IdMap<String>) -> (r: (
    ResolvedTuning,
    Vec<DeprecatedEnvUse>,
))
    ensures
        r.0 == tuning_in_force(tuning_or_none(tuning), env@),
        uses_of(r.1@) == reported(env@),
{
    let configured = match tuning {
        Some(t) => *t,
        None => NodeTuningConfig {
            ingress_dejitter_ms: None,
            ingress_residence_ms: None,
            probe_session_limits: None,
            probe_4k: None,
            media_player_controller: None,
            media_player_pcr_deadlines: None,
        },
    };
    let mut found: Vec<DeprecatedEnvUse> = Vec::new();
    assert(uses_of(found@) =~= Seq::<EnvUse>::empty());
    report_removed(env, &mut found);
    assert(uses_of(found@) =~= removed_uses(env@, removed_table().len() as int));
    let residence: Option<u32> = match env.get("BILBYCAST_INGRESS_RESIDENCE_MS") {
        Some(value) => {
            let parsed = parse_unsigned(text::trim(value.as_str()), u32::MAX);
            let status = if parsed.is_some() {
                EnvStatus::Deprecated
            } else {
                EnvStatus::Unparseable
            };
            report(
                &mut found,
                "BILBYCAST_INGRESS_RESIDENCE_MS",
                "tuning.ingress_residence_ms",
                status,
                value,
            );
            parsed
        },
        None => None,
    };
    assert(uses_of(found@) =~= removed_uses(env@, removed_table().len() as int) + deprecated_use(
        env@,
        0,
    ));
    let probe = read_flag(
        env,
        &mut found,
        "BILBYCAST_PROBE_SESSION_LIMITS",
        "tuning.probe_session_limits",
    );
    let probe_4k = read_flag(
        env,
        &mut found,
        "BILBYCAST_PROBE_4K",
        "tuning.probe_4k",
    );
    let controller = read_flag(
        env,
        &mut found,
        "BILBYCAST_MEDIA_PLAYER_CONTROLLER",
        "tuning.media_player_controller (or per-input `operator_control`)",
    );
    let pcr_deadlines = read_flag(
        env,
        &mut found,
        "BILBYCAST_MEDIA_PLAYER_PCR_DEADLINES",
        "tuning.media_player_pcr_deadlines (or per-input `pcr_deadlines`)",
    );
    assert(uses_of(found@) =~= reported(env@));
    let out = ResolvedTuning {
        ingress_dejitter_ms: configured.ingress_dejitter_ms,
        ingress_residence_ms: match configured.ingress_residence_ms {
            Some(ms) => Some(ms),
            None => residence,
        },
        probe_session_limits: or_true(configured.probe_session_limits, probe),
        probe_4k: or_true(configured.probe_4k, probe_4k),
        media_player_controller: or_true(configured.media_player_controller, controller),
        media_player_pcr_deadlines: or_true(configured.media_player_pcr_deadlines, pcr_deadlines),
    };
    (out, found)
}

/// No removed variable is a deprecated one too.
pub proof fn lemma_tables_are_disjoint(i: int, j: int)
    requires
        0 <= i < removed_table().len(),
        0 <= j < deprecated_table().len(),
    ensures
        removed_table()[i].0 != deprecated_table()[j].0,
{
    reveal_strlit("BILBYCAST_ENABLE_SO_TXTIME");
    reveal_strlit("BILBYCAST_EGRESS_PACING");
    reveal_strlit("BILBYCAST_EGRESS_BUFFER_MS");
    reveal_strlit("BILBYCAST_EGRESS_RESIDENCE_MS");
    reveal_strlit("BILBYCAST_BOND_FWMARK_BASE");
    reveal_strlit("BILBYCAST_TESTBED_TRACE_EVENTS");
    reveal_strlit("BILBYCAST_INGRESS_BUFFER_MS");
    reveal_strlit("BILBYCAST_MEDIA_PLAYER_INCREMENTAL_MP4");
    reveal_strlit("BILBYCAST_INGRESS_RESIDENCE_MS");
    reveal_strlit("BILBYCAST_PROBE_SESSION_LIMITS");
    reveal_strlit("BILBYCAST_PROBE_4K");
    reveal_strlit("BILBYCAST_MEDIA_PLAYER_CONTROLLER");
    reveal_strlit("BILBYCAST_MEDIA_PLAYER_PCR_DEADLINES");
    assert("BILBYCAST_ENABLE_SO_TXTIME"@.len() == 26);
    assert("BILBYCAST_EGRESS_PACING"@.len() == 23);
    assert("BILBYCAST_EGRESS_BUFFER_MS"@.len() == 26);
    assert("BILBYCAST_EGRESS_RESIDENCE_MS"@.len() == 29);
    assert("BILBYCAST_BOND_FWMARK_BASE"@.len() == 26);
    assert("BILBYCAST_TESTBED_TRACE_EVENTS"@.len() == 30);
    assert("BILBYCAST_TESTBED_TRACE_EVENTS"@[10] == 'T');
    assert("BILBYCAST_INGRESS_BUFFER_MS"@.len() == 27);
    assert("BILBYCAST_MEDIA_PLAYER_INCREMENTAL_MP4"@.len() == 38);
    assert("BILBYCAST_INGRESS_RESIDENCE_MS"@.len() == 30);
    assert("BILBYCAST_INGRESS_RESIDENCE_MS"@[10] == 'I');
    assert("BILBYCAST_PROBE_SESSION_LIMITS"@.len() == 30);
    assert("BILBYCAST_PROBE_SESSION_LIMITS"@[10] == 'P');
    assert("BILBYCAST_PROBE_4K"@.len() == 18);
    assert("BILBYCAST_MEDIA_PLAYER_CONTROLLER"@.len() == 33);
    assert("BILBYCAST_MEDIA_PLAYER_PCR_DEADLINES"@.len() == 36);
}

/// The configuration wins: a setting that it holds is in force whatever the
/// environment says.
pub proof fn lemma_configuration_wins(t: NodeTuningConfig, env: Map<Seq<char>, String>)
    ensures
        t.ingress_dejitter_ms == tuning_in_force(t, env).ingress_dejitter_ms,
        t.ingress_residence_ms is Some ==> tuning_in_force(t, env).ingress_residence_ms
            == t.ingress_residence_ms,
        t.probe_session_limits is Some ==> tuning_in_force(t, env).probe_session_limits
            == t.probe_session_limits->0,
        t.probe_4k is Some ==> tuning_in_force(t, env).probe_4k == t.probe_4k->0,
        t.media_player_controller is Some ==> tuning_in_force(t, env).media_player_controller
            == t.media_player_controller->0,
        t.media_player_pcr_deadlines is Some ==> tuning_in_force(t, env).media_player_pcr_deadlines
            == t.media_player_pcr_deadlines->0,
{
}

/// Setting a removed variable changes nothing that is in force.
pub proof fn lemma_removed_does_nothing(
    t: NodeTuningConfig,
    env: Map<Seq<char>, String>,
    i: int,
    value: String,
)
    requires
        0 <= i < removed_table().len(),
    ensures
        tuning_in_force(t, env.insert(removed_table()[i].0, value)) == tuning_in_force(t, env),
{
    lemma_tables_are_disjoint(i, 0);
    lemma_tables_are_disjoint(i, 1);
    lemma_tables_are_disjoint(i, 2);
    lemma_tables_are_disjoint(i, 3);
    lemma_tables_are_disjoint(i, 4);
}

proof fn lemma_removed_uses_contains(env: Map<Seq<char>, String>, i: int, n: int)
    requires
        0 <= i < n <= removed_table().len(),
        env.contains_key(removed_table()[i].0),
    ensures
        removed_uses(env, n).contains(
            EnvUse {
                var: removed_table()[i].0,
                replacement: removed_table()[i].1,
                status: EnvStatus::Removed,
                value: env[removed_table()[i].0]@,
            },
        ),
    decreases n,
{
    let u = EnvUse {
        var: removed_table()[i].0,
        replacement: removed_table()[i].1,
        status: EnvStatus::Removed,
        value: env[removed_table()[i].0]@,
    };
    let head = removed_uses(env, n - 1);
    if i == n - 1 {
        assert(removed_uses(env, n)[head.len() as int] == u);
    } else {
        lemma_removed_uses_contains(env, i, n - 1);
        let k = choose|k: int| 0 <= k < head.len() && head[k] == u;
        assert(removed_uses(env, n)[k] == u);
    }
}

/// A removed variable that is set is reported.
pub proof fn lemma_removed_is_reported(env: Map<Seq<char>, String>, i: int)
    requires
        0 <= i < removed_table().len(),
        env.contains_key(removed_table()[i].0),
    ensures
        reported(env).contains(
            EnvUse {
                var: removed_table()[i].0,
                replacement: removed_table()[i].1,
                status: EnvStatus::Removed,
                value: env[removed_table()[i].0]@,
            },
        ),
{
    let u = EnvUse {
        var: removed_table()[i].0,
        replacement: removed_table()[i].1,
        status: EnvStatus::Removed,
        value: env[removed_table()[i].0]@,
    };
    let head = removed_uses(env, removed_table().len() as int);
    lemma_removed_uses_contains(env, i, removed_table().len() as int);
    let k = choose|k: int| 0 <= k < head.len() && head[k] == u;
    assert(reported(env)[k] == u);
}

/// A deprecated variable that is set is reported, and one whose value cannot
/// be read is reported as such.
pub proof fn lemma_deprecated_is_reported(env: Map<Seq<char>, String>, i: int)
    requires
        0 <= i < deprecated_table().len(),
        env.contains_key(deprecated_table()[i].0),
    ensures
        exists|k: int|
            0 <= k < reported(env).len() && (#[trigger] reported(env)[k]).var
                == deprecated_table()[i].0 && reported(env)[k].value
                == env[deprecated_table()[i].0]@ && reported(env)[k].status == (if i == 0
                && millis_of(env[deprecated_table()[i].0]@) is None {
                EnvStatus::Unparseable
            } else {
                EnvStatus::Deprecated
            }),
{
    let head = removed_uses(env, removed_table().len() as int);
    let n0 = head.len();
    let n1 = n0 + deprecated_use(env, 0).len();
    let n2 = n1 + deprecated_use(env, 1).len();
    let n3 = n2 + deprecated_use(env, 2).len();
    let n4 = n3 + deprecated_use(env, 3).len();
    let k = if i == 0 {
        n0
    } else if i == 1 {
        n1
    } else if i == 2 {
        n2
    } else if i == 3 {
        n3
    } else {
        n4
    };
    assert(reported(env)[k as int] == deprecated_use(env, i)[0]);
}

/// Where no listed variable is set, nothing is reported.
pub proof fn lemma_clean_environment(env: Map<Seq<char>, String>)
    requires
        forall|i: int|
            0 <= i < removed_table().len() ==> !env.contains_key(#[trigger] removed_table()[i].0),
        forall|i: int|
            0 <= i < deprecated_table().len() ==> !env.contains_key(
                #[trigger] deprecated_table()[i].0,
            ),
    ensures
        reported(env) == Seq::<EnvUse>::empty(),
{
    lemma_no_removed_uses(env, removed_table().len() as int);
    assert(!env.contains_key(deprecated_table()[0].0));
    assert(!env.contains_key(deprecated_table()[1].0));
    assert(!env.contains_key(deprecated_table()[2].0));
    assert(!env.contains_key(deprecated_table()[3].0));
    assert(!env.contains_key(deprecated_table()[4].0));
    assert(reported(env) =~= Seq::<EnvUse>::empty());
}

proof fn lemma_no_removed_uses(env: Map<Seq<char>, String>, n: int)
    requires
        0 <= n <= removed_table().len(),
        forall|i: int|
            0 <= i < removed_table().len() ==> !env.contains_key(#[trigger] removed_table()[i].0),
    ensures
        removed_uses(env, n) == Seq::<EnvUse>::empty(),
    decreases n,
{
    if n > 0 {
        lemma_no_removed_uses(env, n - 1);
        assert(!env.contains_key(removed_table()[n - 1].0));
        assert(removed_uses(env, n) =~= Seq::<EnvUse>::empty());
    }
}

/// Each of the four words for off switches off, as it stands; so it does in capital
/// letters or within white space, since only the trimmed text in small letters is
/// looked at. An empty text and every other word are on.
pub proof fn lemma_words_for_off(raw: Seq<char>)
    ensures
        raw == "0"@ ==> !flag_on(raw),
        raw == "false"@ ==> !flag_on(raw),
        raw == "no"@ ==> !flag_on(raw),
        raw == "off"@ ==> !flag_on(raw),
        text::lower_text(text::trimmed(raw)) == "0"@ ==> !flag_on(raw),
        text::lower_text(text::trimmed(raw)) == "false"@ ==> !flag_on(raw),
        text::lower_text(text::trimmed(raw)) == "no"@ ==> !flag_on(raw),
        text::lower_text(text::trimmed(raw)) == "off"@ ==> !flag_on(raw),
        text::lower_text(
            text::trimmed(raw),
        ) != "0"@ && text::lower_text(text::trimmed(raw)) != "false"@ && text::lower_text(text::trimmed(raw)) != "no"@ && text::lower_text(text::trimmed(raw)) != "off"@
            ==> flag_on(raw),
        raw.len() == 0 ==> flag_on(raw),
{
    reveal_strlit("0");
    reveal_strlit("false");
    reveal_strlit("no");
    reveal_strlit("off");
    lemma_small_word("0"@);
    lemma_small_word("false"@);
    lemma_small_word("no"@);
    lemma_small_word("off"@);
    if raw.len() == 0 {
        assert(text::lower_text(text::trimmed(raw)).len() == 0);
    }
}

/// A word of small letters or digits is looked at as it stands.
proof fn lemma_small_word(word: Seq<char>)
    requires
        word.len() > 0,
        forall|i: int|
            0 <= i < word.len() ==> 'a' <= #[trigger] word[i] <= 'z' || '0' <= word[i] <= '9',
    ensures
        text::lower_text(text::trimmed(word)) == word,
{
    assert(!text::is_white_space(word[0]));
    assert(!text::is_white_space(word[word.len() - 1]));
    assert(text::trim_start(word) == word);
    assert(text::trim_end(word) == word);
    assert(text::lower_text(word) =~= word);
}

/// The names of the four variables for switches are four names.
proof fn lemma_switch_variables_differ()
    ensures
        "BILBYCAST_PROBE_SESSION_LIMITS"@ != "BILBYCAST_PROBE_4K"@,
        "BILBYCAST_PROBE_SESSION_LIMITS"@ != "BILBYCAST_MEDIA_PLAYER_CONTROLLER"@,
        "BILBYCAST_PROBE_SESSION_LIMITS"@ != "BILBYCAST_MEDIA_PLAYER_PCR_DEADLINES"@,
        "BILBYCAST_PROBE_4K"@ != "BILBYCAST_MEDIA_PLAYER_CONTROLLER"@,
        "BILBYCAST_PROBE_4K"@ != "BILBYCAST_MEDIA_PLAYER_PCR_DEADLINES"@,
        "BILBYCAST_MEDIA_PLAYER_CONTROLLER"@ != "BILBYCAST_MEDIA_PLAYER_PCR_DEADLINES"@,
{
    reveal_strlit("BILBYCAST_PROBE_SESSION_LIMITS");
    reveal_strlit("BILBYCAST_PROBE_4K");
    reveal_strlit("BILBYCAST_MEDIA_PLAYER_CONTROLLER");
    reveal_strlit("BILBYCAST_MEDIA_PLAYER_PCR_DEADLINES");
    assert("BILBYCAST_PROBE_SESSION_LIMITS"@.len() == 30);
    assert("BILBYCAST_PROBE_4K"@.len() == 18);
    assert("BILBYCAST_MEDIA_PLAYER_CONTROLLER"@.len() == 33);
    assert("BILBYCAST_MEDIA_PLAYER_PCR_DEADLINES"@.len() == 36);
}

/// Each switch follows its own variable and no other: where the configuration leaves
/// it unset, it is off exactly when that variable is set to one of the four words
/// for off.
pub proof fn lemma_each_switch_follows_its_variable(
    t: NodeTuningConfig,
    env: Map<Seq<char>, String>,
)
    ensures
        t.probe_session_limits is None && !env.contains_key("BILBYCAST_PROBE_SESSION_LIMITS"@)
            ==> tuning_in_force(t, env).probe_session_limits,
        t.probe_session_limits is None && env.contains_key("BILBYCAST_PROBE_SESSION_LIMITS"@) ==> {
            let word = text::lower_text(text::trimmed(env["BILBYCAST_PROBE_SESSION_LIMITS"@]@));
            tuning_in_force(t, env).probe_session_limits <==> word != "0"@ && word != "false"@
                && word != "no"@ && word != "off"@
        },
        t.probe_4k is None && !env.contains_key("BILBYCAST_PROBE_4K"@)
            ==> tuning_in_force(t, env).probe_4k,
        t.probe_4k is None && env.contains_key("BILBYCAST_PROBE_4K"@) ==> {
            let word = text::lower_text(text::trimmed(env["BILBYCAST_PROBE_4K"@]@));
            tuning_in_force(t, env).probe_4k <==> word != "0"@ && word != "false"@
                && word != "no"@ && word != "off"@
        },
        t.media_player_controller is None && !env.contains_key("BILBYCAST_MEDIA_PLAYER_CONTROLLER"@)
            ==> tuning_in_force(t, env).media_player_controller,
        t.media_player_controller is None && env.contains_key("BILBYCAST_MEDIA_PLAYER_CONTROLLER"@) ==> {
            let word = text::lower_text(text::trimmed(env["BILBYCAST_MEDIA_PLAYER_CONTROLLER"@]@));
            tuning_in_force(t, env).media_player_controller <==> word != "0"@ && word != "false"@
                && word != "no"@ && word != "off"@
        },
        t.media_player_pcr_deadlines is None && !env.contains_key(
            "BILBYCAST_MEDIA_PLAYER_PCR_DEADLINES"@,
        )
            ==> tuning_in_force(t, env).media_player_pcr_deadlines,
        t.media_player_pcr_deadlines is None && env.contains_key("BILBYCAST_MEDIA_PLAYER_PCR_DEADLINES"@) ==> {
            let word = text::lower_text(
                text::trimmed(env["BILBYCAST_MEDIA_PLAYER_PCR_DEADLINES"@]@),
            );
            tuning_in_force(t, env).media_player_pcr_deadlines <==> word != "0"@ && word != "false"@
                && word != "no"@ && word != "off"@
        },
{
}

/// Where nothing is configured and only this one variable is set, to a word for off,
/// this one switch is off and the others are on.
pub proof fn lemma_only_probe_session_limits_is_off(t: NodeTuningConfig, env: Map<Seq<char>, String>)
    requires
        t.probe_session_limits is None,
        t.probe_4k is None,
        t.media_player_controller is None,
        t.media_player_pcr_deadlines is None,
        forall|name: Seq<char>| #[trigger]
            env.contains_key(name) <==> name == "BILBYCAST_PROBE_SESSION_LIMITS"@,
        env["BILBYCAST_PROBE_SESSION_LIMITS"@]@ == "0"@
            || env["BILBYCAST_PROBE_SESSION_LIMITS"@]@ == "false"@
            || env["BILBYCAST_PROBE_SESSION_LIMITS"@]@ == "no"@
                || env["BILBYCAST_PROBE_SESSION_LIMITS"@]@ == "off"@,
    ensures
        !tuning_in_force(t, env).probe_session_limits,
        tuning_in_force(t, env).probe_4k,
        tuning_in_force(t, env).media_player_controller,
        tuning_in_force(t, env).media_player_pcr_deadlines,
        tuning_in_force(t, env).ingress_dejitter_ms == t.ingress_dejitter_ms,
        tuning_in_force(t, env).ingress_residence_ms == t.ingress_residence_ms,
{
    lemma_words_for_off(env["BILBYCAST_PROBE_SESSION_LIMITS"@]@);
    lemma_switch_variables_differ();
    lemma_residence_variable_differs();
}

/// Where nothing is configured and only this one variable is set, to a word for off,
/// this one switch is off and the others are on.
pub proof fn lemma_only_probe_4k_is_off(t: NodeTuningConfig, env: Map<Seq<char>, String>)
    requires
        t.probe_session_limits is None,
        t.probe_4k is None,
        t.media_player_controller is None,
        t.media_player_pcr_deadlines is None,
        forall|name: Seq<char>| #[trigger]
            env.contains_key(name) <==> name == "BILBYCAST_PROBE_4K"@,
        env["BILBYCAST_PROBE_4K"@]@ == "0"@ || env["BILBYCAST_PROBE_4K"@]@ == "false"@
            || env["BILBYCAST_PROBE_4K"@]@ == "no"@ || env["BILBYCAST_PROBE_4K"@]@ == "off"@,
    ensures
        tuning_in_force(t, env).probe_session_limits,
        !tuning_in_force(t, env).probe_4k,
        tuning_in_force(t, env).media_player_controller,
        tuning_in_force(t, env).media_player_pcr_deadlines,
        tuning_in_force(t, env).ingress_dejitter_ms == t.ingress_dejitter_ms,
        tuning_in_force(t, env).ingress_residence_ms == t.ingress_residence_ms,
{
    lemma_words_for_off(env["BILBYCAST_PROBE_4K"@]@);
    lemma_switch_variables_differ();
    lemma_residence_variable_differs();
}

/// Where nothing is configured and only this one variable is set, to a word for off,
/// this one switch is off and the others are on.
pub proof fn lemma_only_media_player_controller_is_off(t: NodeTuningConfig, env: Map<Seq<char>, String>)
    requires
        t.probe_session_limits is None,
        t.probe_4k is None,
        t.media_player_controller is None,
        t.media_player_pcr_deadlines is None,
        forall|name: Seq<char>| #[trigger]
            env.contains_key(name) <==> name == "BILBYCAST_MEDIA_PLAYER_CONTROLLER"@,
        env["BILBYCAST_MEDIA_PLAYER_CONTROLLER"@]@ == "0"@
            || env["BILBYCAST_MEDIA_PLAYER_CONTROLLER"@]@ == "false"@
            || env["BILBYCAST_MEDIA_PLAYER_CONTROLLER"@]@ == "no"@
                || env["BILBYCAST_MEDIA_PLAYER_CONTROLLER"@]@ == "off"@,
    ensures
        tuning_in_force(t, env).probe_session_limits,
        tuning_in_force(t, env).probe_4k,
        !tuning_in_force(t, env).media_player_controller,
        tuning_in_force(t, env).media_player_pcr_deadlines,
        tuning_in_force(t, env).ingress_dejitter_ms == t.ingress_dejitter_ms,
        tuning_in_force(t, env).ingress_residence_ms == t.ingress_residence_ms,
{
    lemma_words_for_off(env["BILBYCAST_MEDIA_PLAYER_CONTROLLER"@]@);
    lemma_switch_variables_differ();
    lemma_residence_variable_differs();
}

/// Where nothing is configured and only this one variable is set, to a word for off,
/// this one switch is off and the others are on.
pub proof fn lemma_only_media_player_pcr_deadlines_is_off(t: NodeTuningConfig, env: Map<Seq<char>, String>)
    requires
        t.probe_session_limits is None,
        t.probe_4k is None,
        t.media_player_controller is None,
        t.media_player_pcr_deadlines is None,
        forall|name: Seq<char>| #[trigger]
            env.contains_key(name) <==> name == "BILBYCAST_MEDIA_PLAYER_PCR_DEADLINES"@,
        env["BILBYCAST_MEDIA_PLAYER_PCR_DEADLINES"@]@ == "0"@
            || env["BILBYCAST_MEDIA_PLAYER_PCR_DEADLINES"@]@ == "false"@
            || env["BILBYCAST_MEDIA_PLAYER_PCR_DEADLINES"@]@ == "no"@
                || env["BILBYCAST_MEDIA_PLAYER_PCR_DEADLINES"@]@ == "off"@,
    ensures
        tuning_in_force(t, env).probe_session_limits,
        tuning_in_force(t, env).probe_4k,
        tuning_in_force(t, env).media_player_controller,
        !tuning_in_force(t, env).media_player_pcr_deadlines,
        tuning_in_force(t, env).ingress_dejitter_ms == t.ingress_dejitter_ms,
        tuning_in_force(t, env).ingress_residence_ms == t.ingress_residence_ms,
{
    lemma_words_for_off(env["BILBYCAST_MEDIA_PLAYER_PCR_DEADLINES"@]@);
    lemma_switch_variables_differ();
    lemma_residence_variable_differs();
}

proof fn lemma_residence_variable_differs()
    ensures
        "BILBYCAST_INGRESS_RESIDENCE_MS"@ != "BILBYCAST_PROBE_SESSION_LIMITS"@,
        "BILBYCAST_INGRESS_RESIDENCE_MS"@ != "BILBYCAST_PROBE_4K"@,
        "BILBYCAST_INGRESS_RESIDENCE_MS"@ != "BILBYCAST_MEDIA_PLAYER_CONTROLLER"@,
        "BILBYCAST_INGRESS_RESIDENCE_MS"@ != "BILBYCAST_MEDIA_PLAYER_PCR_DEADLINES"@,
{
    reveal_strlit("BILBYCAST_INGRESS_RESIDENCE_MS");
    reveal_strlit("BILBYCAST_PROBE_SESSION_LIMITS");
    reveal_strlit("BILBYCAST_PROBE_4K");
    reveal_strlit("BILBYCAST_MEDIA_PLAYER_CONTROLLER");
    reveal_strlit("BILBYCAST_MEDIA_PLAYER_PCR_DEADLINES");
    assert("BILBYCAST_INGRESS_RESIDENCE_MS"@[10] == 'I');
    assert("BILBYCAST_PROBE_SESSION_LIMITS"@[10] == 'P');
    assert("BILBYCAST_PROBE_4K"@[10] == 'P');
    assert("BILBYCAST_MEDIA_PLAYER_CONTROLLER"@[10] == 'M');
    assert("BILBYCAST_MEDIA_PLAYER_PCR_DEADLINES"@[10] == 'M');
}

/// Whether two environments agree on a variable.
pub open spec fn agree_on(
    a: Map<Seq<char>, String>,
    b: Map<Seq<char>, String>,
    var: Seq<char>,
) -> bool {
    &&& a.contains_key(var) <==> b.contains_key(var)
    &&& a.contains_key(var) ==> a[var] == b[var]
}

/// A switch, and the residence time, depend on the configuration and on their own
/// variable alone.
pub proof fn lemma_settings_are_independent(
    t: NodeTuningConfig,
    u: NodeTuningConfig,
    a: Map<Seq<char>, String>,
    b: Map<Seq<char>, String>,
)
    ensures
        t.probe_session_limits == u.probe_session_limits && agree_on(
            a,
            b,
            "BILBYCAST_PROBE_SESSION_LIMITS"@,
        ) ==> tuning_in_force(t, a).probe_session_limits == tuning_in_force(u, b).probe_session_limits,
        t.probe_4k == u.probe_4k && agree_on(
            a,
            b,
            "BILBYCAST_PROBE_4K"@,
        ) ==> tuning_in_force(t, a).probe_4k == tuning_in_force(u, b).probe_4k,
        t.media_player_controller == u.media_player_controller && agree_on(
            a,
            b,
            "BILBYCAST_MEDIA_PLAYER_CONTROLLER"@,
        ) ==> tuning_in_force(t, a).media_player_controller == tuning_in_force(u, b).media_player_controller,
        t.media_player_pcr_deadlines == u.media_player_pcr_deadlines && agree_on(
            a,
            b,
            "BILBYCAST_MEDIA_PLAYER_PCR_DEADLINES"@,
        ) ==> tuning_in_force(t, a).media_player_pcr_deadlines == tuning_in_force(u, b).media_player_pcr_deadlines,
        t.ingress_residence_ms == u.ingress_residence_ms && agree_on(
            a,
            b,
            "BILBYCAST_INGRESS_RESIDENCE_MS"@,
        ) ==> tuning_in_force(t, a).ingress_residence_ms == tuning_in_force(u, b).ingress_residence_ms,
{
}

proof fn lemma_decimal_is_trimmed(n: nat)
    ensures
        text::trimmed(text::dec(n)) == text::dec(n),
{
    lemma_decimal_digits(n);
    let s = text::dec(n);
    assert(!text::is_white_space(s[0]));
    assert(!text::is_white_space(s[s.len() - 1]));
    assert(text::trim_start(s) == s);
    assert(text::trim_end(s) == s);
}

proof fn lemma_decimal_digits(n: nat)
    ensures
        text::dec(n).len() > 0,
        forall|i: int| 0 <= i < text::dec(n).len() ==> '0' <= #[trigger] text::dec(n)[i] <= '9',
    decreases n,
{
    if n >= 10 {
        lemma_decimal_digits(n / 10);
        assert(text::dec(n) == text::dec(n / 10).push(text::digit_char(n % 10)));
    }
}

/// A number of milliseconds in the variable is in force where the configuration
/// holds none; a text that is no number is not.
pub proof fn lemma_residence_follows_its_variable(
    t: NodeTuningConfig,
    env: Map<Seq<char>, String>,
    n: u32,
)
    requires
        t.ingress_residence_ms is None,
    ensures
        !env.contains_key("BILBYCAST_INGRESS_RESIDENCE_MS"@) ==> tuning_in_force(
            t,
            env,
        ).ingress_residence_ms is None,
        env.contains_key("BILBYCAST_INGRESS_RESIDENCE_MS"@)
            && env["BILBYCAST_INGRESS_RESIDENCE_MS"@]@ == text::dec(n as nat) ==> tuning_in_force(
            t,
            env,
        ).ingress_residence_ms == Some(n),
        env.contains_key("BILBYCAST_INGRESS_RESIDENCE_MS"@) && number::unsigned_of(
            text::trimmed(env["BILBYCAST_INGRESS_RESIDENCE_MS"@]@),
            0xFFFF_FFFF,
        ) is None ==> tuning_in_force(t, env).ingress_residence_ms is None,
{
    lemma_decimal_is_trimmed(n as nat);
    number::lemma_read_back(n as nat, u32::MAX as nat);
}

/// Whether a report on a variable is there, with the value that was found.
pub open spec fn is_reported(
    env: Map<Seq<char>, String>,
    var: Seq<char>,
    status: EnvStatus,
) -> bool {
    exists|k: int|
        0 <= k < reported(env).len() && (#[trigger] reported(env)[k]).var == var
            && reported(env)[k].status == status && reported(env)[k].value == env[var]@
}

/// Each of the removed variables that is set is reported as removed, by its name.
pub proof fn lemma_each_removed_variable_is_reported(env: Map<Seq<char>, String>)
    ensures
        env.contains_key("BILBYCAST_ENABLE_SO_TXTIME"@) ==> is_reported(
            env,
            "BILBYCAST_ENABLE_SO_TXTIME"@,
            EnvStatus::Removed,
        ),
        env.contains_key("BILBYCAST_EGRESS_PACING"@) ==> is_reported(
            env,
            "BILBYCAST_EGRESS_PACING"@,
            EnvStatus::Removed,
        ),
        env.contains_key("BILBYCAST_EGRESS_BUFFER_MS"@) ==> is_reported(
            env,
            "BILBYCAST_EGRESS_BUFFER_MS"@,
            EnvStatus::Removed,
        ),
        env.contains_key("BILBYCAST_EGRESS_RESIDENCE_MS"@) ==> is_reported(
            env,
            "BILBYCAST_EGRESS_RESIDENCE_MS"@,
            EnvStatus::Removed,
        ),
        env.contains_key("BILBYCAST_BOND_FWMARK_BASE"@) ==> is_reported(
            env,
            "BILBYCAST_BOND_FWMARK_BASE"@,
            EnvStatus::Removed,
        ),
        env.contains_key("BILBYCAST_TESTBED_TRACE_EVENTS"@) ==> is_reported(
            env,
            "BILBYCAST_TESTBED_TRACE_EVENTS"@,
            EnvStatus::Removed,
        ),
        env.contains_key("BILBYCAST_INGRESS_BUFFER_MS"@) ==> is_reported(
            env,
            "BILBYCAST_INGRESS_BUFFER_MS"@,
            EnvStatus::Removed,
        ),
        env.contains_key("BILBYCAST_MEDIA_PLAYER_INCREMENTAL_MP4"@) ==> is_reported(
            env,
            "BILBYCAST_MEDIA_PLAYER_INCREMENTAL_MP4"@,
            EnvStatus::Removed,
        ),
{
    assert forall|i: int| 0 <= i < removed_table().len() && env.contains_key(
        #[trigger] removed_table()[i].0,
    ) implies is_reported(env, removed_table()[i].0, EnvStatus::Removed) by {
        lemma_removed_is_reported(env, i);
    }
    assert(removed_table()[0].0 == "BILBYCAST_ENABLE_SO_TXTIME"@);
    assert(removed_table()[1].0 == "BILBYCAST_EGRESS_PACING"@);
    assert(removed_table()[2].0 == "BILBYCAST_EGRESS_BUFFER_MS"@);
    assert(removed_table()[3].0 == "BILBYCAST_EGRESS_RESIDENCE_MS"@);
    assert(removed_table()[4].0 == "BILBYCAST_BOND_FWMARK_BASE"@);
    assert(removed_table()[5].0 == "BILBYCAST_TESTBED_TRACE_EVENTS"@);
    assert(removed_table()[6].0 == "BILBYCAST_INGRESS_BUFFER_MS"@);
    assert(removed_table()[7].0 == "BILBYCAST_MEDIA_PLAYER_INCREMENTAL_MP4"@);
}

/// Each of the deprecated variables that is set is reported as deprecated, by its
/// name; the one for a number as unparseable where it holds none.
pub proof fn lemma_each_deprecated_variable_is_reported(env: Map<Seq<char>, String>)
    ensures
        env.contains_key("BILBYCAST_INGRESS_RESIDENCE_MS"@) && number::unsigned_of(
            text::trimmed(env["BILBYCAST_INGRESS_RESIDENCE_MS"@]@),
            0xFFFF_FFFF,
        ) is None ==> is_reported(
            env,
            "BILBYCAST_INGRESS_RESIDENCE_MS"@,
            EnvStatus::Unparseable,
        ),
        env.contains_key("BILBYCAST_INGRESS_RESIDENCE_MS"@) && number::unsigned_of(
            text::trimmed(env["BILBYCAST_INGRESS_RESIDENCE_MS"@]@),
            0xFFFF_FFFF,
        ) is Some ==> is_reported(
            env,
            "BILBYCAST_INGRESS_RESIDENCE_MS"@,
            EnvStatus::Deprecated,
        ),
        env.contains_key("BILBYCAST_PROBE_SESSION_LIMITS"@) ==> is_reported(
            env,
            "BILBYCAST_PROBE_SESSION_LIMITS"@,
            EnvStatus::Deprecated,
        ),
        env.contains_key("BILBYCAST_PROBE_4K"@) ==> is_reported(
            env,
            "BILBYCAST_PROBE_4K"@,
            EnvStatus::Deprecated,
        ),
        env.contains_key("BILBYCAST_MEDIA_PLAYER_CONTROLLER"@) ==> is_reported(
            env,
            "BILBYCAST_MEDIA_PLAYER_CONTROLLER"@,
            EnvStatus::Deprecated,
        ),
        env.contains_key("BILBYCAST_MEDIA_PLAYER_PCR_DEADLINES"@) ==> is_reported(
            env,
            "BILBYCAST_MEDIA_PLAYER_PCR_DEADLINES"@,
            EnvStatus::Deprecated,
        ),
{
    assert forall|i: int| 0 <= i < deprecated_table().len() && env.contains_key(
        #[trigger] deprecated_table()[i].0,
    ) implies is_reported(
        env,
        deprecated_table()[i].0,
        if i == 0 && millis_of(env[deprecated_table()[i].0]@) is None {
            EnvStatus::Unparseable
        } else {
            EnvStatus::Deprecated
        },
    ) by {
        lemma_deprecated_is_reported(env, i);
    }
    assert(deprecated_table()[0].0 == "BILBYCAST_INGRESS_RESIDENCE_MS"@);
    assert(deprecated_table()[1].0 == "BILBYCAST_PROBE_SESSION_LIMITS"@);
    assert(deprecated_table()[2].0 == "BILBYCAST_PROBE_4K"@);
    assert(deprecated_table()[3].0 == "BILBYCAST_MEDIA_PLAYER_CONTROLLER"@);
    assert(deprecated_table()[4].0 == "BILBYCAST_MEDIA_PLAYER_PCR_DEADLINES"@);
}

proof fn lemma_removed_uses_are_set(env: Map<Seq<char>, String>, n: int)
    requires
        n <= removed_table().len(),
    ensures
        forall|k: int|
            0 <= k < removed_uses(env, n).len() ==> {
                let u = #[trigger] removed_uses(env, n)[k];
                env.contains_key(u.var) && u.value == env[u.var]@ && u.status is Removed
            },
        removed_uses(env, n).len() <= if n > 0 {
            n
        } else {
            0
        },
    decreases n,
{
    if n > 0 {
        lemma_removed_uses_are_set(env, n - 1);
    }
}

/// Nothing is reported but variables that are set, with the values that they have,
/// and at most thirteen of them.
pub proof fn lemma_reports_are_true(env: Map<Seq<char>, String>)
    ensures
        forall|k: int|
            0 <= k < reported(env).len() ==> {
                let u = #[trigger] reported(env)[k];
                env.contains_key(u.var) && u.value == env[u.var]@
            },
        reported(env).len() <= 13,
{
    lemma_removed_uses_are_set(env, removed_table().len() as int);
}

/// What the operator is told names the variable first and what to set instead later
/// on; only a value that has no effect is shown.
pub proof fn lemma_message_names_the_variable(u: EnvUse)
    ensures
        u.status is Deprecated ==> use_text(u) == u.var
            + " is deprecated and will be removed in a future release. It is still honoured for now, below the config. Set `"@
            + u.replacement
            + "` in the node's configuration (Manager → node → Configure → Tuning) and remove the environment variable."@,
        u.status is Removed ==> text::has_prefix(
            use_text(u),
            u.var + " has been removed and does nothing"@,
        ),
        u.status is Unparseable ==> text::has_prefix(use_text(u), u.var + " is set to "@),
        text::has_prefix(use_text(u), u.var),
{
    assert(use_text(u).subrange(0, u.var.len() as int) =~= u.var);
    if u.status is Removed {
        reveal_strlit(" has been removed and does nothing");
        reveal_strlit(" has been removed and does nothing — this host still sets it to ");
        let p = u.var + " has been removed and does nothing"@;
        assert(use_text(u).subrange(0, p.len() as int) =~= p);
    }
    if u.status is Unparseable {
        let p = u.var + " is set to "@;
        assert(use_text(u).subrange(0, p.len() as int) =~= p);
    }
}

/// What is resolved follows the configuration first and each variable under its own name
/// next; without a configuration every setting is left to its variable.
pub proof fn lemma_resolved_tuning(
    tuning: Option<&NodeTuningConfig>,
    env: &IdMap<String>,
    r: (ResolvedTuning, Vec<DeprecatedEnvUse>),
)
    requires
        call_ensures(resolve_tuning, (tuning, env), r),
    ensures
        tuning is Some && tuning->0.probe_session_limits is Some
            ==> r.0.probe_session_limits == tuning->0.probe_session_limits->0,
        (tuning is None || tuning->0.probe_session_limits is None) && !env@.contains_key(
            "BILBYCAST_PROBE_SESSION_LIMITS"@,
        ) ==> r.0.probe_session_limits,
        (tuning is None || tuning->0.probe_session_limits is None) && env@.contains_key(
            "BILBYCAST_PROBE_SESSION_LIMITS"@,
        ) ==> r.0.probe_session_limits == flag_on(env@["BILBYCAST_PROBE_SESSION_LIMITS"@]@),
        tuning is Some && tuning->0.probe_4k is Some ==> r.0.probe_4k == tuning->0.probe_4k->0,
        (tuning is None || tuning->0.probe_4k is None) && !env@.contains_key(
            "BILBYCAST_PROBE_4K"@,
        ) ==> r.0.probe_4k,
        (tuning is None || tuning->0.probe_4k is None) && env@.contains_key(
            "BILBYCAST_PROBE_4K"@,
        ) ==> r.0.probe_4k == flag_on(env@["BILBYCAST_PROBE_4K"@]@),
        tuning is Some && tuning->0.media_player_controller is Some
            ==> r.0.media_player_controller == tuning->0.media_player_controller->0,
        (tuning is None || tuning->0.media_player_controller is None) && !env@.contains_key(
            "BILBYCAST_MEDIA_PLAYER_CONTROLLER"@,
        ) ==> r.0.media_player_controller,
        (tuning is None || tuning->0.media_player_controller is None) && env@.contains_key(
            "BILBYCAST_MEDIA_PLAYER_CONTROLLER"@,
        ) ==> r.0.media_player_controller == flag_on(env@["BILBYCAST_MEDIA_PLAYER_CONTROLLER"@]@),
        tuning is Some && tuning->0.media_player_pcr_deadlines is Some
            ==> r.0.media_player_pcr_deadlines == tuning->0.media_player_pcr_deadlines->0,
        (tuning is None || tuning->0.media_player_pcr_deadlines is None) && !env@.contains_key(
            "BILBYCAST_MEDIA_PLAYER_PCR_DEADLINES"@,
        ) ==> r.0.media_player_pcr_deadlines,
        (tuning is None || tuning->0.media_player_pcr_deadlines is None) && env@.contains_key(
            "BILBYCAST_MEDIA_PLAYER_PCR_DEADLINES"@,
        )
            ==> r.0.media_player_pcr_deadlines == flag_on(
                env@["BILBYCAST_MEDIA_PLAYER_PCR_DEADLINES"@]@,
            ),
        tuning is Some ==> r.0.ingress_dejitter_ms == tuning->0.ingress_dejitter_ms,
        tuning is None ==> r.0.ingress_dejitter_ms is None,
        tuning is Some && tuning->0.ingress_residence_ms is Some ==> r.0.ingress_residence_ms
            == tuning->0.ingress_residence_ms,
        uses_of(r.1@) == reported(env@),
{
}

/// What is said to use instead of each variable that is reported.
pub proof fn lemma_replacements_of_variables()
    ensures
        removed_table().len() == 8,
        deprecated_table().len() == 5,
        removed_table()[0] == (
            "BILBYCAST_ENABLE_SO_TXTIME"@,
            "BILBYCAST_ENABLE_TXTIME (the alias was collapsed onto one name)"@,
        ),
        removed_table()[1] == (
            "BILBYCAST_EGRESS_PACING"@,
            "the per-output `egress_pacing` config field"@,
        ),
        removed_table()[2] == (
            "BILBYCAST_EGRESS_BUFFER_MS"@,
            "the per-output `egress_buffer_ms` config field"@,
        ),
        removed_table()[3] == (
            "BILBYCAST_EGRESS_RESIDENCE_MS"@,
            "the per-output `egress_buffer_ms` config field, which the residence is derived from"@,
        ),
        removed_table()[4] == (
            "BILBYCAST_BOND_FWMARK_BASE"@,
            "BILBYCAST_BOND_RT_TABLE_BASE / BILBYCAST_BOND_RT_PRIO_BASE"@,
        ),
        removed_table()[5] == (
            "BILBYCAST_TESTBED_TRACE_EVENTS"@,
            "RUST_LOG=info,bilbycast_edge::testbed_events=debug (the trace has its own tracing target, so the level selects it — note the leading `info`, since a bare target directive sets the global default to off)"@,
        ),
        removed_table()[6] == (
            "BILBYCAST_INGRESS_BUFFER_MS"@,
            "tuning.ingress_dejitter_ms (this variable never had any effect)"@,
        ),
        removed_table()[7] == (
            "BILBYCAST_MEDIA_PLAYER_INCREMENTAL_MP4"@,
            "nothing — the bounded incremental reader is unconditional in release builds. The whole-file demux it selected is retained for debug builds only, because its resident-memory cost is the OOM this replaced"@,
        ),
        deprecated_table()[0] == (
            "BILBYCAST_INGRESS_RESIDENCE_MS"@,
            "tuning.ingress_residence_ms"@,
        ),
        deprecated_table()[1] == (
            "BILBYCAST_PROBE_SESSION_LIMITS"@,
            "tuning.probe_session_limits"@,
        ),
        deprecated_table()[2] == (
            "BILBYCAST_PROBE_4K"@,
            "tuning.probe_4k"@,
        ),
        deprecated_table()[3] == (
            "BILBYCAST_MEDIA_PLAYER_CONTROLLER"@,
            "tuning.media_player_controller (or per-input `operator_control`)"@,
        ),
        deprecated_table()[4] == (
            "BILBYCAST_MEDIA_PLAYER_PCR_DEADLINES"@,
            "tuning.media_player_pcr_deadlines (or per-input `pcr_deadlines`)"@,
        ),
        EnvStatus::Deprecated.text() == "deprecated"@,
        EnvStatus::Removed.text() == "removed"@,
        EnvStatus::Unparseable.text() == "unparseable"@,
{
}

} // verus!
