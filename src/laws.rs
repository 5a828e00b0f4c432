//! What validation guarantees, stated over the spec model and proved.
use vstd::prelude::*;

use crate::config::{KMSView, ValidatorView};
use crate::validate::{
    ConfigErrorView, ConnectionView, ResolvedValidatorView, ValidatedView, last_id_repeated,
    provider_usable, raw_entry, raw_view, resolve_connection, resolve_validators, validate_view,
};

verus! {

/// No two resolved validators share an identifier.
pub open spec fn ids_distinct(rs: Seq<ResolvedValidatorView>) -> bool {
    forall|j: int, k: int| 0 <= j < k < rs.len() ==> #[trigger] rs[j].id != #[trigger] rs[k].id
}

/// A validated configuration as validation can produce it for a build with or
/// without the hardware signer.
pub open spec fn validated_wf(v: ValidatedView, hsm_available: bool) -> bool {
    &&& ids_distinct(v.validators)
    &&& provider_usable(v.providers, hsm_available)
    &&& (!hsm_available ==> v.providers.yubihsm is None)
}

/// The resolved entry stands for the raw one: same identifier, its one
/// transport, the same `reconnect`.
pub open spec fn resolves_to(e: (Seq<char>, ValidatorView), r: ResolvedValidatorView) -> bool {
    &&& r.id == e.0
    &&& resolve_connection(e.1) == Some(r.connection)
    &&& r.reconnect == e.1.reconnect
}

proof fn lemma_resolved_entries(vs: Seq<(Seq<char>, ValidatorView)>)
    requires
        resolve_validators(vs) is Ok,
    ensures
        resolve_validators(vs)->Ok_0.len() == vs.len(),
        forall|i: int|
            0 <= i < vs.len() ==> resolves_to(#[trigger] vs[i], resolve_validators(vs)->Ok_0[i]),
        ids_distinct(resolve_validators(vs)->Ok_0),
    decreases vs.len(),
{
    if vs.len() > 0 {
        let pre = vs.drop_last();
        lemma_resolved_entries(pre);
        let rs = resolve_validators(vs)->Ok_0;
        let ps = resolve_validators(pre)->Ok_0;
        assert(rs == ps.push(rs.last()));
        assert forall|i: int| 0 <= i < vs.len() implies resolves_to(#[trigger] vs[i], rs[i]) by {
            if i < vs.len() - 1 {
                assert(vs[i] == pre[i]);
            }
        }
        assert forall|j: int, k: int| 0 <= j < k < rs.len() implies #[trigger] rs[j].id
            != #[trigger] rs[k].id by {
            if k == rs.len() - 1 {
                assert(vs[j] == pre[j]);
                if rs[j].id == rs[k].id {
                    assert(vs[j].0 == vs.last().0);
                }
            }
        }
    }
}

proof fn lemma_unresolvable_entry_fails(vs: Seq<(Seq<char>, ValidatorView)>, i: int)
    requires
        0 <= i < vs.len(),
        resolve_connection(vs[i].1) is None,
    ensures
        resolve_validators(vs) is Err,
    decreases vs.len(),
{
    if i < vs.len() - 1 {
        assert(vs.drop_last()[i] == vs[i]);
        lemma_unresolvable_entry_fails(vs.drop_last(), i);
    }
}

/// Validation gives every validator exactly one transport: on success each
/// entry had exactly one of the secret connection and the UNIX socket, and
/// resolves to that one under the same identifier; an entry with both or
/// neither makes validation fail.
pub proof fn validation_resolves_one_connection(raw: KMSView, hsm_available: bool)
    ensures
        validate_view(raw, hsm_available) is Ok ==> {
            let v = validate_view(raw, hsm_available)->Ok_0;
            &&& v.validators.len() == raw.validators.len()
            &&& forall|i: int|
                0 <= i < raw.validators.len() ==> {
                    let e = #[trigger] raw.validators[i];
                    &&& (e.1.seccon is Some) != (e.1.unix is Some)
                    &&& v.validators[i].id == e.0
                    &&& match v.validators[i].connection {
                        ConnectionView::SecretConnection(s) => e.1.seccon == Some(s),
                        ConnectionView::UNIXConnection(u) => e.1.unix == Some(u),
                    }
                }
        },
        (exists|i: int|
            0 <= i < raw.validators.len() && (#[trigger] raw.validators[i].1.seccon is Some)
                == (raw.validators[i].1.unix is Some)) ==> validate_view(raw, hsm_available) is Err,
{
    if resolve_validators(raw.validators) is Ok {
        lemma_resolved_entries(raw.validators);
    }
    if exists|i: int|
        0 <= i < raw.validators.len() && (#[trigger] raw.validators[i].1.seccon is Some)
            == (raw.validators[i].1.unix is Some) {
        let i = choose|i: int|
            0 <= i < raw.validators.len() && (#[trigger] raw.validators[i].1.seccon is Some)
                == (raw.validators[i].1.unix is Some);
        lemma_unresolvable_entry_fails(raw.validators, i);
    }
}

/// Validation keeps each validator's `reconnect` setting as the source gave it.
pub proof fn validation_keeps_reconnect(raw: KMSView, hsm_available: bool)
    ensures
        validate_view(raw, hsm_available) is Ok ==> forall|i: int|
            0 <= i < raw.validators.len() ==> (#[trigger] raw.validators[i]).1.reconnect
                == validate_view(raw, hsm_available)->Ok_0.validators[i].reconnect,
{
    if resolve_validators(raw.validators) is Ok {
        lemma_resolved_entries(raw.validators);
    }
}

/// Once its validators resolve, a configuration validates exactly when a
/// provider that the build can use is configured.
pub proof fn validation_needs_usable_provider(raw: KMSView, hsm_available: bool)
    ensures
        (validate_view(raw, hsm_available) is Ok) == (resolve_validators(raw.validators) is Ok
            && provider_usable(raw.providers, hsm_available)),
{
}

/// Whatever validation produces is well formed for that build.
pub proof fn validated_is_well_formed(raw: KMSView, hsm_available: bool)
    ensures
        validate_view(raw, hsm_available) is Ok ==> validated_wf(
            validate_view(raw, hsm_available)->Ok_0,
            hsm_available,
        ),
{
    if resolve_validators(raw.validators) is Ok {
        lemma_resolved_entries(raw.validators);
    }
}

proof fn lemma_raw_entries_resolve(rs: Seq<ResolvedValidatorView>)
    requires
        ids_distinct(rs),
    ensures
        resolve_validators(rs.map_values(|r: ResolvedValidatorView| raw_entry(r))) == Ok::<_, ConfigErrorView>(rs),
    decreases rs.len(),
{
    let vs = rs.map_values(|r: ResolvedValidatorView| raw_entry(r));
    if rs.len() == 0 {
        assert(rs =~= Seq::empty());
    } else {
        let pre = rs.drop_last();
        assert(vs.drop_last() =~= pre.map_values(|r: ResolvedValidatorView| raw_entry(r)));
        lemma_raw_entries_resolve(pre);
        let last = rs.last();
        if last_id_repeated(vs) {
            let j = choose|j: int| 0 <= j < vs.len() - 1 && #[trigger] vs[j].0 == vs.last().0;
            assert(rs[j].id != rs[rs.len() - 1].id);
        }
        match last.connection {
            ConnectionView::SecretConnection(_) => {},
            ConnectionView::UNIXConnection(_) => {},
        }
        assert(pre.push(last) =~= rs);
    }
}

/// Writing a well-formed validated configuration back to its raw form and
/// validating that again gives the same configuration: the same identifiers,
/// transports, `reconnect` settings and providers.
pub proof fn validation_round_trip(v: ValidatedView, hsm_available: bool)
    requires
        validated_wf(v, hsm_available),
    ensures
        validate_view(raw_view(v), hsm_available) == Ok::<_, ConfigErrorView>(v),
{
    lemma_raw_entries_resolve(v.validators);
    if hsm_available {
        assert(v.providers.yubihsm == raw_view(v).providers.yubihsm);
    }
}

} // verus!
