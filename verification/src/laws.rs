//! The laws of resolution, stated and proved over the mathematical model:
//! when resolution is owed success, what its errors name, that defaults are
//! exactly the registered ones with environment overlay always winning, that
//! resolution is deterministic, and that it is blind to letter case.

use vstd::prelude::*;

use crate::coerce::{dec_value, is_dec};
use crate::resolve::spec_resolve;
use crate::settings::{ConfigErrorView, SettingsView};
use crate::snapshot::{lookup, lower_seq};

verus! {

/// Whether `v` coerces to a 16-bit unsigned integer.
pub open spec fn coerces_u16(v: Seq<char>) -> bool {
    is_dec(v) && dec_value(v) <= u16::MAX
}

/// Whether `v` coerces to a 32-bit unsigned integer.
pub open spec fn coerces_u32(v: Seq<char>) -> bool {
    is_dec(v) && dec_value(v) <= u32::MAX
}

/// Whether `v` coerces to a pointer-sized unsigned integer.
pub open spec fn coerces_usize(v: Seq<char>) -> bool {
    is_dec(v) && dec_value(v) <= usize::MAX
}

/// Exactly when resolution of `env` succeeds: every required field has an
/// environment value, every required numeric value coerces, and every
/// supplied optional numeric value coerces.
pub open spec fn resolvable(env: Seq<(String, String)>) -> bool {
    &&& lookup(env, "database__username"@) is Some
    &&& lookup(env, "database__password"@) is Some
    &&& lookup(env, "database__host"@) is Some
    &&& (lookup(env, "database__port"@) matches Some(v) && coerces_u16(v))
    &&& lookup(env, "database__database_name"@) is Some
    &&& (lookup(env, "database__max_connections"@) matches Some(v) && coerces_u32(v))
    &&& (lookup(env, "database__min_connections"@) matches Some(v) && coerces_u32(v))
    &&& (lookup(env, "application__port"@) matches Some(v) ==> coerces_u16(v))
    &&& lookup(env, "arch_node__url"@) is Some
    &&& lookup(env, "redis__url"@) is Some
    &&& (lookup(env, "indexer__batch_size"@) matches Some(v) ==> coerces_usize(v))
    &&& (lookup(env, "indexer__concurrent_batches"@) matches Some(v) ==> coerces_usize(v))
}

/// Success is owed exactly on resolvable snapshots: resolution succeeds if
/// and only if every required field is supplied and every numeric value in
/// play coerces. In particular, supplying a missing required field (all
/// else held fixed) turns failure into success, and omitting any required
/// field forces failure.
pub proof fn lemma_ok_iff_resolvable(env: Seq<(String, String)>)
    ensures
        spec_resolve(env) is Ok <==> resolvable(env),
{
}

/// Every error names the problem: resolution never reports a source-access
/// failure, a missing-field error carries the dotted path of a required
/// field whose environment value is indeed absent, and a coercion error
/// carries the dotted path of a numeric field whose supplied raw value
/// indeed fails to coerce to that field's type.
pub proof fn lemma_error_names_problem(env: Seq<(String, String)>)
    ensures
        spec_resolve(env) != Err::<SettingsView, ConfigErrorView>(
            ConfigErrorView::SourceAccessFailure,
        ),
        spec_resolve(env) matches Err(ConfigErrorView::MissingRequiredField(p)) ==> {
            ||| p == "database.username"@ && lookup(env, "database__username"@) is None
            ||| p == "database.password"@ && lookup(env, "database__password"@) is None
            ||| p == "database.host"@ && lookup(env, "database__host"@) is None
            ||| p == "database.port"@ && lookup(env, "database__port"@) is None
            ||| p == "database.database_name"@ && lookup(env, "database__database_name"@) is None
            ||| p == "database.max_connections"@ && lookup(env, "database__max_connections"@) is None
            ||| p == "database.min_connections"@ && lookup(env, "database__min_connections"@) is None
            ||| p == "arch_node.url"@ && lookup(env, "arch_node__url"@) is None
            ||| p == "redis.url"@ && lookup(env, "redis__url"@) is None
        },
        spec_resolve(env) matches Err(ConfigErrorView::TypeCoercionFailure(p)) ==> {
            ||| p == "database.port"@ && (lookup(env, "database__port"@) matches Some(v)
                && !coerces_u16(v))
            ||| p == "database.max_connections"@ && (lookup(env, "database__max_connections"@)
                matches Some(v) && !coerces_u32(v))
            ||| p == "database.min_connections"@ && (lookup(env, "database__min_connections"@)
                matches Some(v) && !coerces_u32(v))
            ||| p == "application.port"@ && (lookup(env, "application__port"@) matches Some(v)
                && !coerces_u16(v))
            ||| p == "indexer.batch_size"@ && (lookup(env, "indexer__batch_size"@) matches Some(v)
                && !coerces_usize(v))
            ||| p == "indexer.concurrent_batches"@ && (lookup(env, "indexer__concurrent_batches"@)
                matches Some(v) && !coerces_usize(v))
        },
{
}

/// Defaults are exactly the registered ones, and environment overlay always
/// wins: in every successfully resolved settings object, each optional
/// field equals the supplied environment value when one exists and the
/// registered default when none does, and each required field equals its
/// supplied environment value.
pub proof fn lemma_defaults_and_overlay(env: Seq<(String, String)>)
    ensures
        spec_resolve(env) matches Ok(s) ==> {
            &&& (match lookup(env, "application__host"@) {
                Some(v) => s.application.host == v,
                None => s.application.host == "0.0.0.0"@,
            })
            &&& (match lookup(env, "application__port"@) {
                Some(v) => s.application.port as nat == dec_value(v),
                None => s.application.port == 8080u16,
            })
            &&& (match lookup(env, "application__cors_allow_origin"@) {
                Some(v) => s.application.cors_allow_origin == v,
                None => s.application.cors_allow_origin == "*"@,
            })
            &&& (match lookup(env, "application__cors_allow_methods"@) {
                Some(v) => s.application.cors_allow_methods == v,
                None => s.application.cors_allow_methods == "GET, POST, OPTIONS"@,
            })
            &&& (match lookup(env, "application__cors_allow_headers"@) {
                Some(v) => s.application.cors_allow_headers == v,
                None => s.application.cors_allow_headers == "Content-Type, Authorization"@,
            })
            &&& (match lookup(env, "indexer__batch_size"@) {
                Some(v) => s.indexer.batch_size as nat == dec_value(v),
                None => s.indexer.batch_size == 100usize,
            })
            &&& (match lookup(env, "indexer__concurrent_batches"@) {
                Some(v) => s.indexer.concurrent_batches as nat == dec_value(v),
                None => s.indexer.concurrent_batches == 5usize,
            })
            &&& s.database.username == lookup(env, "database__username"@)->Some_0
            &&& s.database.password == lookup(env, "database__password"@)->Some_0
            &&& s.database.host == lookup(env, "database__host"@)->Some_0
            &&& s.database.port as nat == dec_value(lookup(env, "database__port"@)->Some_0)
            &&& s.database.database_name == lookup(env, "database__database_name"@)->Some_0
            &&& s.database.max_connections as nat == dec_value(
                lookup(env, "database__max_connections"@)->Some_0,
            )
            &&& s.database.min_connections as nat == dec_value(
                lookup(env, "database__min_connections"@)->Some_0,
            )
            &&& s.arch_node.url == lookup(env, "arch_node__url"@)->Some_0
            &&& s.redis.url == lookup(env, "redis__url"@)->Some_0
        },
{
}

/// Resolution is deterministic: on one fixed snapshot, two resolution runs
/// produce results that are equal field for field.
pub proof fn lemma_resolution_deterministic(
    env: Seq<(String, String)>,
    r1: Result<SettingsView, ConfigErrorView>,
    r2: Result<SettingsView, ConfigErrorView>,
)
    requires
        r1 == spec_resolve(env),
        r2 == spec_resolve(env),
    ensures
        r1 == r2,
{
}

/// Resolution is blind to the letter case of variable names: two snapshots
/// whose names agree up to ASCII case and whose values agree entry for
/// entry resolve to the very same result.
pub proof fn lemma_resolve_case_insensitive(
    env1: Seq<(String, String)>,
    env2: Seq<(String, String)>,
)
    requires
        env1.len() == env2.len(),
        forall|j: int|
            0 <= j < env1.len() ==> lower_seq(#[trigger] env1[j].0@) == lower_seq(env2[j].0@),
        forall|j: int| 0 <= j < env1.len() ==> #[trigger] env1[j].1@ == env2[j].1@,
    ensures
        spec_resolve(env1) == spec_resolve(env2),
{
    crate::snapshot::lemma_lookup_case_insensitive(env1, env2, "database__username"@);
    crate::snapshot::lemma_lookup_case_insensitive(env1, env2, "database__password"@);
    crate::snapshot::lemma_lookup_case_insensitive(env1, env2, "database__host"@);
    crate::snapshot::lemma_lookup_case_insensitive(env1, env2, "database__port"@);
    crate::snapshot::lemma_lookup_case_insensitive(env1, env2, "database__database_name"@);
    crate::snapshot::lemma_lookup_case_insensitive(env1, env2, "database__max_connections"@);
    crate::snapshot::lemma_lookup_case_insensitive(env1, env2, "database__min_connections"@);
    crate::snapshot::lemma_lookup_case_insensitive(env1, env2, "application__port"@);
    crate::snapshot::lemma_lookup_case_insensitive(env1, env2, "application__host"@);
    crate::snapshot::lemma_lookup_case_insensitive(env1, env2, "application__cors_allow_origin"@);
    crate::snapshot::lemma_lookup_case_insensitive(env1, env2, "application__cors_allow_methods"@);
    crate::snapshot::lemma_lookup_case_insensitive(env1, env2, "application__cors_allow_headers"@);
    crate::snapshot::lemma_lookup_case_insensitive(env1, env2, "arch_node__url"@);
    crate::snapshot::lemma_lookup_case_insensitive(env1, env2, "redis__url"@);
    crate::snapshot::lemma_lookup_case_insensitive(env1, env2, "indexer__batch_size"@);
    crate::snapshot::lemma_lookup_case_insensitive(env1, env2, "indexer__concurrent_batches"@);
}

} // verus!
