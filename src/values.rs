use vstd::prelude::*;
use crate::text::push_char;

verus! {

/// The decimal digit of a value below 10.
pub open spec fn digit_char(d: int) -> char {
    (0x30 + d) as char
}

/// The decimal digits of a natural number, without leading zeros; `0` for zero.
pub open spec fn nat_digits(n: nat) -> Seq<char>
    decreases n,
{
    if n < 10 {
        seq![digit_char(n as int)]
    } else {
        nat_digits(n / 10) + seq![digit_char((n % 10) as int)]
    }
}

/// The decimal text of an integer, with `-` before a negative one.
pub open spec fn decimal(n: int) -> Seq<char> {
    if n < 0 {
        seq!['-'] + nat_digits((-n) as nat)
    } else {
        nat_digits(n as nat)
    }
}

/// Appends the decimal digits of `n` to `out`.
fn push_digits(out: &mut String, n: u64)
    ensures
        final(out)@ == old(out)@ + nat_digits(n as nat),
    decreases n,
{
    if n >= 10 {
        push_digits(out, n / 10);
    }
    push_char(out, ((n % 10) as u8 + 0x30) as char);
}

/// The decimal text of `n`.
pub fn decimal_text(n: i32) -> (r: String)
    ensures
        r@ == decimal(n as int),
{
    let mut out = String::new();
    if n < 0 {
        push_char(&mut out, '-');
        let m: u64 = (0 - (n as i64)) as u64;
        push_digits(&mut out, m);
    } else {
        push_digits(&mut out, n as u64);
    }
    out
}

/// The fields of a resource that a response is to carry, as paths such as `cpuInfo` or
/// `memoryInfo.totalRamBytes`.
#[derive(Clone, Debug, Default)]
pub struct FieldMask {
    pub paths: Vec<String>,
}

/// The paths joined by `,`.
pub open spec fn join_paths(ps: Seq<Seq<char>>) -> Seq<char>
    decreases ps.len(),
{
    if ps.len() == 0 {
        Seq::empty()
    } else if ps.len() == 1 {
        ps[0]
    } else {
        join_paths(ps.drop_last()) + seq![','] + ps.last()
    }
}

impl FieldMask {
    pub open spec fn paths_view(&self) -> Seq<Seq<char>> {
        self.paths@.map_values(|p: String| p@)
    }

    /// The mask as a query value: the paths joined by `,`.
    pub fn to_query_value(&self) -> (r: String)
        ensures
            r@ == join_paths(self.paths_view()),
    {
        let ghost ps = self.paths_view();
        let mut out = String::new();
        let mut i: usize = 0;
        while i < self.paths.len()
            invariant
                i <= self.paths@.len(),
                ps == self.paths_view(),
                out@ == join_paths(ps.subrange(0, i as int)),
            decreases self.paths@.len() - i,
        {
            let ghost prefix = ps.subrange(0, i + 1);
            assert(prefix.drop_last() =~= ps.subrange(0, i as int));
            if i > 0 {
                push_char(&mut out, ',');
            }
            crate::text::push_str(&mut out, self.paths[i].as_str());
            assert(out@ =~= join_paths(prefix));
            i = i + 1;
        }
        assert(ps.subrange(0, ps.len() as int) =~= ps);
        out
    }
}

} // verus!
