use vstd::prelude::*;

verus! {

/// A parameter: its name and its value.
pub type ParamView = (Seq<char>, Seq<char>);

/// Whether some pair of `ps` has the name `k`.
pub open spec fn has_name(ps: Seq<ParamView>, k: Seq<char>) -> bool {
    exists|i: int| 0 <= i < ps.len() && #[trigger] ps[i].0 == k
}

/// The value of the first pair of `ps` named `k`.
pub open spec fn first_value(ps: Seq<ParamView>, k: Seq<char>) -> Option<Seq<char>>
    decreases ps.len(),
{
    if ps.len() == 0 {
        None
    } else if ps[0].0 == k {
        Some(ps[0].1)
    } else {
        first_value(ps.drop_first(), k)
    }
}

/// `ps` without the pairs whose name is one of `names`, in the order of `ps`.
pub open spec fn without_names(ps: Seq<ParamView>, names: Seq<Seq<char>>) -> Seq<ParamView>
    decreases ps.len(),
{
    if ps.len() == 0 {
        ps
    } else if names.contains(ps.last().0) {
        without_names(ps.drop_last(), names)
    } else {
        without_names(ps.drop_last(), names).push(ps.last())
    }
}

/// The first of `known` that is the name of a pair of `ps`.
pub open spec fn first_clash(known: Seq<Seq<char>>, ps: Seq<ParamView>) -> Option<Seq<char>>
    decreases known.len(),
{
    if known.len() == 0 {
        None
    } else if has_name(ps, known[0]) {
        Some(known[0])
    } else {
        first_clash(known.drop_first(), ps)
    }
}

/// `ps` with the value of its first pair named `k` replaced by `v`, or `(k, v)` appended where no
/// pair is named `k`.
pub open spec fn set_value(ps: Seq<ParamView>, k: Seq<char>, v: Seq<char>) -> Seq<ParamView>
    decreases ps.len(),
{
    if ps.len() == 0 {
        seq![(k, v)]
    } else if ps[0].0 == k {
        seq![(k, v)] + ps.drop_first()
    } else {
        seq![ps[0]] + set_value(ps.drop_first(), k, v)
    }
}

proof fn lemma_set_value_at(ps: Seq<ParamView>, k: Seq<char>, v: Seq<char>, i: int)
    requires
        0 <= i <= ps.len(),
        forall|j: int| 0 <= j < i ==> #[trigger] ps[j].0 != k,
        i < ps.len() ==> ps[i].0 == k,
    ensures
        i < ps.len() ==> set_value(ps, k, v) == ps.update(i, (k, v)),
        i == ps.len() ==> set_value(ps, k, v) == ps.push((k, v)),
    decreases i,
{
    if i == 0 {
        if ps.len() == 0 {
            assert(seq![(k, v)] =~= ps.push((k, v)));
        } else {
            assert(seq![(k, v)] + ps.drop_first() =~= ps.update(0, (k, v)));
        }
    } else {
        let rest = ps.drop_first();
        assert forall|j: int| 0 <= j < i - 1 implies #[trigger] rest[j].0 != k by {
            assert(rest[j] == ps[j + 1]);
        }
        lemma_set_value_at(rest, k, v, i - 1);
        if i < ps.len() {
            assert(seq![ps[0]] + rest.update(i - 1, (k, v)) =~= ps.update(i, (k, v)));
        } else {
            assert(seq![ps[0]] + rest.push((k, v)) =~= ps.push((k, v)));
        }
    }
}

/// An ordered list of name/value pairs; a name may occur more than once.
#[derive(Clone, Debug)]
pub struct Params {
    pub pairs: Vec<(String, String)>,
}

impl View for Params {
    type V = Seq<ParamView>;

    open spec fn view(&self) -> Seq<ParamView> {
        self.pairs@.map_values(|p: (String, String)| (p.0@, p.1@))
    }
}

impl Params {
    /// No parameters.
    pub fn new() -> (r: Params)
        ensures
            r@ == Seq::<ParamView>::empty(),
    {
        Params { pairs: Vec::new() }
    }

    /// Appends a pair at the end.
    pub fn push(&mut self, name: String, value: String)
        ensures
            final(self)@ == old(self)@.push((name@, value@)),
    {
        self.pairs.push((name, value));
        assert(final(self)@ =~= old(self)@.push((name@, value@)));
    }

    /// Gives `name` the value `value`: the first pair of that name takes it, or a new pair is
    /// appended where none has the name.
    pub fn set(&mut self, name: String, value: String)
        ensures
            final(self)@ == set_value(old(self)@, name@, value@),
    {
        let ghost before = self@;
        let ghost n = name@;
        let ghost val = value@;
        let mut i: usize = 0;
        while i < self.pairs.len()
            invariant
                i <= self.pairs@.len(),
                self@ == before,
                before == old(self)@,
                n == name@,
                val == value@,
                forall|j: int| 0 <= j < i ==> #[trigger] before[j].0 != name@,
            decreases self.pairs@.len() - i,
        {
            if self.pairs[i].0 == name {
                proof {
                    lemma_set_value_at(before, name@, value@, i as int);
                }
                self.pairs.set(i, (name, value));
                assert(self@ =~= before.update(i as int, (n, val)));
                assert(self@ == set_value(before, n, val));

                return;
            }
            i = i + 1;
        }
        proof {
            lemma_set_value_at(before, name@, value@, i as int);
        }
        self.push(name, value);
    }

    /// Appends the pairs of `other` at the end, in their order.
    pub fn extend(&mut self, other: &Params)
        ensures
            final(self)@ == old(self)@ + other@,
    {
        let mut i: usize = 0;
        while i < other.pairs.len()
            invariant
                i <= other@.len(),
                other@.len() == other.pairs@.len(),
                self@ == old(self)@ + other@.subrange(0, i as int),
            decreases other.pairs@.len() - i,
        {
            let name = other.pairs[i].0.clone();
            let value = other.pairs[i].1.clone();
            self.push(name, value);
            assert(other@.subrange(0, i + 1) =~= other@.subrange(0, i as int).push(other@[i as int]));
            i = i + 1;
        }
        assert(other@.subrange(0, other@.len() as int) =~= other@);
    }

    /// Whether a pair is named `name`.
    pub fn contains_key(&self, name: &String) -> (r: bool)
        ensures
            r == has_name(self@, name@),
    {
        let mut i: usize = 0;
        while i < self.pairs.len()
            invariant
                i <= self.pairs@.len(),
                forall|j: int| 0 <= j < i ==> #[trigger] self@[j].0 != name@,
            decreases self.pairs@.len() - i,
        {
            if self.pairs[i].0 == *name {
                assert(self@[i as int].0 == name@);
                return true;
            }
            i = i + 1;
        }
        false
    }

    /// The value of the first pair named `name`.
    pub fn get(&self, name: &String) -> (r: Option<String>)
        ensures
            match r {
                Some(v) => first_value(self@, name@) == Some(v@),
                None => first_value(self@, name@) is None,
            },
    {
        let mut i: usize = 0;
        assert(self@.subrange(0, self@.len() as int) =~= self@);
        while i < self.pairs.len()
            invariant
                i <= self.pairs@.len(),
                first_value(self@, name@) == first_value(self@.subrange(i as int, self@.len() as int), name@),
            decreases self.pairs@.len() - i,
        {
            let ghost rest = self@.subrange(i as int, self@.len() as int);
            assert(rest.drop_first() =~= self@.subrange(i + 1, self@.len() as int));
            if self.pairs[i].0 == *name {
                return Some(self.pairs[i].1.clone());
            }
            i = i + 1;
        }
        None
    }

    /// Removes every pair whose name is one of `names`; the others keep their order.
    pub fn remove_params(&mut self, names: &Vec<String>)
        ensures
            final(self)@ == without_names(old(self)@, names@.map_values(|n: String| n@)),
    {
        let ghost ns = names@.map_values(|n: String| n@);
        let ghost before = self@;
        let mut kept: Vec<(String, String)> = Vec::new();
        let mut i: usize = 0;
        while i < self.pairs.len()
            invariant
                i <= self.pairs@.len(),
                self@ == before,
                ns == names@.map_values(|n: String| n@),
                (Params { pairs: kept })@ == without_names(before.subrange(0, i as int), ns),
            decreases self.pairs@.len() - i,
        {
            let ghost prefix = before.subrange(0, i + 1);
            assert(prefix.drop_last() =~= before.subrange(0, i as int));
            let mut listed = false;
            let mut j: usize = 0;
            while j < names.len()
                invariant
                    j <= names@.len(),
                    i < self.pairs@.len(),
                    listed == (exists|m: int| 0 <= m < j && #[trigger] ns[m] == self@[i as int].0),
                    ns == names@.map_values(|n: String| n@),
                decreases names@.len() - j,
            {
                assert(ns[j as int] == names@[j as int]@);
                if names[j] == self.pairs[i].0 {
                    listed = true;
                }
                j = j + 1;
            }
            assert(listed == ns.contains(prefix.last().0));
            if !listed {
                let ghost old_kept = (Params { pairs: kept })@;
                kept.push((self.pairs[i].0.clone(), self.pairs[i].1.clone()));
                assert((Params { pairs: kept })@ =~= old_kept.push(prefix.last()));
            }
            i = i + 1;
        }
        assert(before.subrange(0, before.len() as int) =~= before);
        self.pairs = kept;
    }
}

/// Checks the names in `known`, in order, against the names of `additional`: the first one that
/// is also a name there is the error.
pub fn check_field_clash(known: &Vec<String>, additional: &Params) -> (r: Result<(), String>)
    ensures
        match r {
            Ok(()) => first_clash(known@.map_values(|n: String| n@), additional@) is None,
            Err(f) => first_clash(known@.map_values(|n: String| n@), additional@) == Some(f@),
        },
{
    let ghost ks = known@.map_values(|n: String| n@);
    let mut i: usize = 0;
    assert(ks.subrange(0, ks.len() as int) =~= ks);
    while i < known.len()
        invariant
            i <= known@.len(),
            ks == known@.map_values(|n: String| n@),
            first_clash(ks, additional@) == first_clash(ks.subrange(i as int, ks.len() as int), additional@),
        decreases known@.len() - i,
    {
        let ghost rest = ks.subrange(i as int, ks.len() as int);
        assert(rest.drop_first() =~= ks.subrange(i + 1, ks.len() as int));
        if additional.contains_key(&known[i]) {
            return Err(known[i].clone());
        }
        i = i + 1;
    }
    Ok(())
}

} // verus!
