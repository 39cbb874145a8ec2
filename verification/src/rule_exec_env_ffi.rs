//! The registration bridge and the rule registry.
//!
//! The registry is a concurrent map from generated identifier to rule,
//! held behind `dashmap::DashMap` and shared by reference between every
//! runtime host pointed at it.  `op_escheck_rule_new` is the one host
//! capability exposed into the sandbox: it strictly parses a
//! script-supplied value and commits the resulting rule under a freshly
//! minted identifier.

use vstd::prelude::*;

use crate::json::JsonValue;
use crate::rule::{
    parse_rule, spec_parse_rule, Rule, RuleErrK, RuleError, RuleId, RuleV,
};

verus! {

broadcast use vstd::seq::group_seq_axioms, vstd::std_specs::vec::group_vec_axioms;

#[verifier::external_type_specification]
#[verifier::external_body]
#[verifier::reject_recursive_types(K)]
#[verifier::reject_recursive_types(V)]
#[verifier::reject_recursive_types(S)]
pub struct ExDashMap<K, V, S>(dashmap::DashMap<K, V, S>);

/// What the registry's map holds, as a mathematical map from raw
/// identifier to the stored rule.
pub uninterp spec fn dash_contents(m: dashmap::DashMap<u128, Rule>) -> Map<u128, Rule>;

/// The view of a registry holding nothing.
pub open spec fn empty_registry_view() -> Map<u128, Rule> {
    Map::empty()
}

/// The rule registry: a concurrent key-value store from identifier to
/// rule.  Entries are only ever inserted, under freshly minted
/// identifiers; nothing is deleted or updated in place.
pub struct Registry {
    map: dashmap::DashMap<u128, Rule>,
}

impl View for Registry {
    type V = Map<u128, Rule>;

    closed spec fn view(&self) -> Map<u128, Rule> {
        dash_contents(self.map)
    }
}

impl Registry {
    #[verifier::type_invariant]
    spec fn type_inv(self) -> bool {
        self@.dom().finite()
    }

    /// An empty registry.  Relies on `dashmap::DashMap::new`: a freshly
    /// created map holds nothing.
    #[verifier::external_body]
    pub fn new() -> (r: Registry)
        ensures
            r@ == empty_registry_view(),
    {
        Registry { map: dashmap::DashMap::new() }
    }

    /// Relies on `dashmap::DashMap::contains_key`.
    #[verifier::external_body]
    fn contains_raw(&self, key: u128) -> (r: bool)
        ensures
            r == dash_contents(self.map).dom().contains(key),
    {
        self.map.contains_key(&key)
    }

    /// Whether an identifier is present.
    pub fn contains(&self, id: RuleId) -> (r: bool)
        ensures
            r == self@.dom().contains(id.0),
    {
        self.contains_raw(id.0)
    }

    /// Relies on `dashmap::DashMap::len`: the count of held entries.
    #[verifier::external_body]
    fn len_raw(&self) -> (r: usize)
        ensures
            r == dash_contents(self.map).dom().len(),
    {
        self.map.len()
    }

    /// The number of registered rules.
    pub fn len(&self) -> (r: usize)
        ensures
            r == self@.dom().len(),
    {
        self.len_raw()
    }

    /// Relies on `dashmap::DashMap::insert`: the entry is added to the
    /// map, replacing any entry under the same key; nothing else changes.
    #[verifier::external_body]
    fn insert_raw(&mut self, key: u128, value: Rule)
        ensures
            final(self)@ == old(self)@.insert(key, value),
    {
        self.map.insert(key, value);
    }

    /// Relies on `dashmap::DashMap::iter`: every held entry is produced
    /// exactly once, in no promised order; rules come out as clones whose
    /// views equal the stored rules' views.
    #[verifier::external_body]
    fn pairs_raw(&self) -> (r: Vec<(u128, Rule)>)
        ensures
            r@.len() == self@.dom().len(),
            forall|i: int|
                0 <= i < r@.len() ==> self@.dom().contains((#[trigger] r@[i]).0)
                    && r@[i].1@ == self@[r@[i].0]@,
            forall|i: int, j: int|
                0 <= i < r@.len() && 0 <= j < r@.len() && i != j ==> (
                #[trigger] r@[i]).0 != (#[trigger] r@[j]).0,
    {
        self.map.iter().map(|entry| (*entry.key(), entry.value().clone())).collect()
    }

    /// An identifier not yet present.  Identifiers are drawn at random;
    /// in the vanishingly unlikely event that the draw collides with a
    /// present entry, the smallest unused value stands in, so a minted
    /// identifier is always fresh.
    fn fresh_id(&self) -> (id: RuleId)
        ensures
            !self@.dom().contains(id.0),
    {
        let drawn = RuleId::next();
        if !self.contains(drawn) {
            return drawn;
        }
        proof {
            use_type_invariant(self);
        }
        let n = self.len();
        let ghost dom = self@.dom();
        let ghost mut seen: Set<u128> = Set::empty();
        let mut c: u128 = 0;
        while c <= n as u128
            invariant
                seen.finite(),
                seen.len() == c,
                seen.subset_of(dom),
                forall|x: u128| seen.contains(x) <==> x < c,
                dom == self@.dom(),
                n == dom.len(),
                dom.finite(),
                c <= n as u128 + 1,
            decreases n as u128 + 1 - c,
        {
            if !self.contains(RuleId(c)) {
                return RuleId(c);
            }
            proof {
                seen = seen.insert(c);
            }
            c = c + 1;
        }
        proof {
            vstd::set_lib::lemma_len_subset(seen, dom);
            assert(false);
        }
        vstd::pervasive::unreached()
    }

    /// Inserts a rule under a freshly minted identifier.  The insert
    /// always succeeds: the identifier is fresh, so no entry is ever
    /// overwritten and every previously registered rule stays registered.
    pub fn insert(&mut self, rule: Rule) -> (id: RuleId)
        ensures
            !old(self)@.dom().contains(id.0),
            final(self)@ == old(self)@.insert(id.0, rule),
    {
        let id = self.fresh_id();
        self.insert_raw(id.0, rule);
        id
    }

    /// Every registered pair, each exactly once, in no promised order.
    #[verifier::loop_isolation(false)]
    pub fn iterate(&self) -> (r: Vec<(RuleId, Rule)>)
        ensures
            r@.len() == self@.dom().len(),
            forall|i: int|
                0 <= i < r@.len() ==> self@.dom().contains((#[trigger] r@[i]).0.0)
                    && r@[i].1@ == self@[r@[i].0.0]@,
            forall|i: int, j: int|
                0 <= i < r@.len() && 0 <= j < r@.len() && i != j ==> (
                #[trigger] r@[i]).0.0 != (#[trigger] r@[j]).0.0,
    {
        let mut pairs = self.pairs_raw();
        let ghost all = pairs@;
        let mut out: Vec<(RuleId, Rule)> = Vec::new();
        while pairs.len() > 0
            invariant
                out@.len() + pairs@.len() == all.len(),
                forall|j: int|
                    0 <= j < out@.len() ==> (#[trigger] out@[j]).0.0 == all[j].0
                        && out@[j].1 == all[j].1,
                forall|j: int|
                    0 <= j < pairs@.len() ==> (#[trigger] pairs@[j]) == all[
                        out@.len() + j
                    ],
            decreases pairs.len(),
        {
            let (key, rule) = pairs.remove(0);
            out.push((RuleId(key), rule));
        }
        out
    }
}

/// A fresh registry with one rule inserted grows by exactly one entry;
/// more generally, inserting under a fresh identifier grows the held set
/// of entries by one and disturbs no other entry, so size is monotone
/// over successful registrations.
pub proof fn lemma_insert_grows_by_one(
    before: Map<u128, Rule>,
    after: Map<u128, Rule>,
    id: u128,
    rule: Rule,
)
    requires
        before.dom().finite(),
        !before.dom().contains(id),
        after == before.insert(id, rule),
    ensures
        after.dom().finite(),
        after.dom().len() == before.dom().len() + 1,
        forall|k: u128| before.dom().contains(k) ==> after.dom().contains(k)
            && after[k] == before[k],
{
    assert(after.dom() =~= before.dom().insert(id));
}

/// The state handed to the registration capability: the owning host's
/// instance identifier and the shared registry handle.
pub struct InnerState {
    pub id: u128,
    pub rule_map: Registry,
}

impl InnerState {
    /// Wraps a registry handle under a fresh instance identifier.
    pub fn new(rule_map: Registry) -> (s: InnerState)
        ensures
            s.rule_map@ == rule_map@,
    {
        InnerState { id: RuleId::next().0, rule_map }
    }
}

/// The registration capability exposed into the sandbox.  The value is
/// strictly parsed; on success the rule is committed to the registry
/// under a fresh identifier.  A failure is local to this invocation: the
/// registry is left exactly as it was, and rules registered earlier stay
/// registered.
pub fn op_escheck_rule_new(state: &mut InnerState, value: &JsonValue) -> (r: Result<
    RuleId,
    RuleError,
>)
    ensures
        r is Ok <==> spec_parse_rule(value@) is Ok,
        r matches Ok(id) ==> !old(state).rule_map@.dom().contains(id.0) && (exists|
            rule: Rule,
        |
            rule@ == spec_parse_rule(value@)->Ok_0 && rule.wf()
                && final(state).rule_map@ == old(state).rule_map@.insert(id.0, rule)),
        r matches Err(e) ==> final(state).rule_map@ == old(state).rule_map@
            && final(state).id == old(state).id && spec_parse_rule(value@) is Err
            && ((e is InvalidSchema)
            <==> spec_parse_rule(value@) == Result::<RuleV, RuleErrK>::Err(
            RuleErrK::Schema,
        )),
{
    match parse_rule(value) {
        Ok(rule) => {
            let ghost witness = rule;
            let id = state.rule_map.insert(rule);
            proof {
                assert(witness@ == spec_parse_rule(value@)->Ok_0 && witness.wf()
                    && state.rule_map@ == old(state).rule_map@.insert(id.0, witness));
            }
            Ok(id)
        },
        Err(e) => Err(e),
    }
}

} // verus!
