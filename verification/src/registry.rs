use vstd::prelude::*;

use crate::binding::TypeBinding;

verus! {

broadcast use
    vstd::std_specs::vec::axiom_vec_index_decreases,
    vstd::std_specs::vec::axiom_vec_decreases_to_view,
    vstd::seq::axiom_seq_index_decreases;

spec fn reg_map(s: Seq<(String, TypeBinding)>) -> Map<Seq<char>, TypeBinding>
    decreases s.len(),
{
    if s.len() == 0 {
        Map::empty()
    } else {
        reg_map(s.drop_last()).insert(s.last().0@, s.last().1)
    }
}

spec fn distinct_tokens(s: Seq<(String, TypeBinding)>) -> bool {
    forall|i: int, j: int| 0 <= i < j < s.len() ==> (#[trigger] s[i].0@) != (#[trigger] s[j].0@)
}

proof fn lemma_reg_map_at(s: Seq<(String, TypeBinding)>, j: int)
    requires
        distinct_tokens(s),
        0 <= j < s.len(),
    ensures
        reg_map(s).contains_key(s[j].0@),
        reg_map(s)[s[j].0@] == s[j].1,
    decreases s.len(),
{
    if j < s.len() - 1 {
        assert(distinct_tokens(s.drop_last()));
        assert(s.drop_last()[j] == s[j]);
        lemma_reg_map_at(s.drop_last(), j);
        assert(s.last().0@ != s[j].0@);
    }
}

proof fn lemma_reg_map_none(s: Seq<(String, TypeBinding)>, token: Seq<char>)
    requires
        forall|j: int| 0 <= j < s.len() ==> (#[trigger] s[j].0@) != token,
    ensures
        !reg_map(s).contains_key(token),
    decreases s.len(),
{
    if s.len() > 0 {
        lemma_reg_map_none(s.drop_last(), token);
    }
}

/// The process-wide table of type bindings: one binding per domain-type
/// token, populated once during start-up and only read afterwards. The
/// registry is an explicit value handed to whoever needs it; nothing
/// here is a hidden global.
pub struct BindingRegistry {
    entries: Vec<(String, TypeBinding)>,
}

impl View for BindingRegistry {
    type V = Map<Seq<char>, TypeBinding>;

    closed spec fn view(&self) -> Map<Seq<char>, TypeBinding> {
        reg_map(self.entries@)
    }
}

impl BindingRegistry {
    /// Registered tokens are distinct, so each token leads to exactly
    /// the binding registered under it.
    pub closed spec fn wf(self) -> bool {
        distinct_tokens(self.entries@)
    }

    /// An empty registry.
    pub fn new() -> (r: BindingRegistry)
        ensures
            r.wf(),
            r@ == Map::<Seq<char>, TypeBinding>::empty(),
    {
        BindingRegistry { entries: Vec::new() }
    }

    /// Register a binding under a domain-type token. Registration
    /// happens once per type, before any lookup: a token registered
    /// twice is refused and the registry is left unchanged.
    #[verifier::loop_isolation(false)]
    pub fn register(&mut self, token: String, binding: TypeBinding) -> (ok: bool)
        requires
            old(self).wf(),
        ensures
            final(self).wf(),
            ok == !old(self)@.contains_key(token@),
            ok ==> final(self)@ == old(self)@.insert(token@, binding),
            !ok ==> *final(self) == *old(self),
    {
        let mut i: usize = 0;
        while i < self.entries.len()
            invariant
                i <= self.entries.len(),
                self == old(self),
                forall|j: int| 0 <= j < i as int ==> (#[trigger] self.entries@[j].0@) != token@,
            decreases self.entries.len() - i,
        {
            if self.entries[i].0 == token {
                proof {
                    lemma_reg_map_at(self.entries@, i as int);
                }
                return false;
            }
            i = i + 1;
        }
        proof {
            lemma_reg_map_none(self.entries@, token@);
        }
        let ghost old_entries = self.entries@;
        self.entries.push((token, binding));
        proof {
            assert(self.entries@.drop_last() =~= old_entries);
        }
        true
    }

    /// The binding registered under a token, if any.
    #[verifier::loop_isolation(false)]
    pub fn lookup<'a>(&'a self, token: &String) -> (r: Option<&'a TypeBinding>)
        requires
            self.wf(),
        ensures
            match r {
                Option::Some(b) => self@.contains_key(token@) && *b == self@[token@],
                Option::None => !self@.contains_key(token@),
            },
    {
        let mut i: usize = 0;
        while i < self.entries.len()
            invariant
                i <= self.entries.len(),
                forall|j: int| 0 <= j < i as int ==> (#[trigger] self.entries@[j].0@) != token@,
            decreases self.entries.len() - i,
        {
            if self.entries[i].0 == *token {
                proof {
                    lemma_reg_map_at(self.entries@, i as int);
                }
                return Some(&self.entries[i].1);
            }
            i = i + 1;
        }
        proof {
            lemma_reg_map_none(self.entries@, token@);
        }
        None
    }
}

} // verus!
