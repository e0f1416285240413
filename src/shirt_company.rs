//! A shirt giveaway that honours a preferred colour or else gives the colour
//! in stock the most, closures that capture a borrowed string, and a filter
//! over owned values.
use vstd::prelude::*;
use vstd::string::StringExecFns;

verus! {

/// A shirt colour.
#[derive(Clone, Copy, Debug, PartialEq, Eq, Structural, Hash)]
pub enum ShirtColor {
    Red,
    Blue,
    Yellow,
}

/// Shirts in stock: for each colour, how many are left. A colour's count is
/// its first entry.
#[derive(Debug)]
pub struct Inventory {
    pub shirts: Vec<(ShirtColor, u32)>,
}

/// Whether `k` is the first entry of `s` for colour `c`.
pub open spec fn first_entry(s: Seq<(ShirtColor, u32)>, c: ShirtColor, k: int) -> bool {
    &&& 0 <= k < s.len()
    &&& s[k].0 == c
    &&& forall|j: int| 0 <= j < k ==> s[j].0 != c
}

/// Whether `s` has an entry for colour `c`.
pub open spec fn stocks(s: Seq<(ShirtColor, u32)>, c: ShirtColor) -> bool {
    exists|k: int| 0 <= k < s.len() && s[k].0 == c
}

/// Whether `k` is the last entry of `s` with the largest count.
pub open spec fn last_max_entry(s: Seq<(ShirtColor, u32)>, k: int) -> bool {
    &&& 0 <= k < s.len()
    &&& forall|j: int| 0 <= j < s.len() ==> s[j].1 <= s[k].1
    &&& forall|j: int| k < j < s.len() ==> s[j].1 < s[k].1
}

/// Whether `c` is the colour given away for `preference`: the preferred
/// colour, or else a colour of the last entry with the most shirts.
pub open spec fn chosen(preference: Option<ShirtColor>, s: Seq<(ShirtColor, u32)>, c: ShirtColor) -> bool {
    match preference {
        Some(p) => c == p,
        None => exists|m: int| last_max_entry(s, m) && s[m].0 == c,
    }
}

impl Inventory {
    /// The colour with the most shirts left; among equals, the last listed.
    pub fn most_stocked(&self) -> (r: ShirtColor)
        requires
            self.shirts@.len() > 0,
        ensures
            exists|k: int| last_max_entry(self.shirts@, k) && self.shirts@[k].0 == r,
    {
        let s = &self.shirts;
        let mut best: usize = 0;
        let mut i: usize = 1;
        while i < s.len()
            invariant
                0 < s@.len(),
                best < i <= s@.len(),
                forall|j: int| 0 <= j < i ==> s@[j].1 <= s@[best as int].1,
                forall|j: int| best < j < i ==> s@[j].1 < s@[best as int].1,
            decreases s@.len() - i,
        {
            if s[i].1 >= s[best].1 {
                best = i;
            }
            i = i + 1;
        }
        assert(last_max_entry(s@, best as int));
        s[best].0
    }

    /// Gives away a shirt of the preferred colour, or of the colour stocked
    /// the most when there is no preference, if one is left.
    pub fn giveaway(&mut self, user_preference: &Option<ShirtColor>) -> (r: Option<ShirtColor>)
        requires
            match *user_preference {
                Some(c) => stocks(old(self).shirts@, c),
                None => old(self).shirts@.len() > 0,
            },
        ensures
            exists|c: ShirtColor, k: int|
                {
                    &&& chosen(*user_preference, old(self).shirts@, c)
                    &&& first_entry(old(self).shirts@, c, k)
                    &&& if old(self).shirts@[k].1 > 0 {
                        &&& r == Some(c)
                        &&& final(self).shirts@ == old(self).shirts@.update(
                            k,
                            (c, (old(self).shirts@[k].1 - 1) as u32),
                        )
                    } else {
                        &&& r is None
                        &&& final(self).shirts@ == old(self).shirts@
                    }
                },
    {
        let color = match user_preference {
            Some(c) => *c,
            None => self.most_stocked(),
        };
        let n = self.shirts.len();
        let mut k: usize = 0;
        while k < n && self.shirts[k].0 != color
            invariant
                n == self.shirts@.len(),
                k <= n,
                stocks(self.shirts@, color),
                forall|j: int| 0 <= j < k ==> self.shirts@[j].0 != color,
            decreases n - k,
        {
            k = k + 1;
        }
        assert(first_entry(self.shirts@, color, k as int));
        let count = self.shirts[k].1;
        if count > 0 {
            self.shirts.set(k, (color, count - 1));
            Some(color)
        } else {
            None
        }
    }
}

/// A closure that returns a new copy of `s_ref` each time it is called.
pub fn make_a_cloner<'a>(s_ref: &'a str) -> (r: impl Fn() -> String + 'a)
    ensures
        call_requires(r, ()),
        forall|s: String| call_ensures(r, (), s) ==> s@ == s_ref@,
{
    move || -> (s: String)
        ensures
            s@ == s_ref@,
        { String::from_str(s_ref) }
}

/// A closure that returns a new copy of `s_ref` each time it is called,
/// with the borrow's lifetime left to inference.
pub fn make_a_cloner2(s_ref: &str) -> (r: impl Fn() -> String + '_)
    ensures
        call_requires(r, ()),
        forall|s: String| call_ensures(r, (), s) ==> s@ == s_ref@,
{
    || -> (s: String)
        ensures
            s@ == s_ref@,
        { String::from_str(s_ref) }
}

/// A shoe.
#[derive(Debug, PartialEq)]
pub struct Shoe {
    pub size: u32,
    pub style: String,
}

/// The shoes of size `shoe_size`, in their order.
pub fn shoes_in_size(shoes: Vec<Shoe>, shoe_size: u32) -> (r: Vec<Shoe>)
    ensures
        r@ == shoes@.filter(|s: Shoe| s.size == shoe_size),
{
    let ghost pred = |s: Shoe| s.size == shoe_size;
    let mut rest = shoes;
    let mut out: Vec<Shoe> = Vec::new();
    while rest.len() > 0
        invariant
            pred == (|s: Shoe| s.size == shoe_size),
            out@ + rest@.filter(pred) == shoes@.filter(pred),
        decreases rest@.len(),
    {
        let ghost before = rest@;
        let shoe = rest.remove(0);
        proof {
            assert(before =~= seq![shoe] + rest@);
            Seq::filter_distributes_over_add(seq![shoe], rest@, pred);
            reveal_with_fuel(Seq::filter, 2);
            assert(seq![shoe].drop_last() =~= Seq::<Shoe>::empty());
        }
        if shoe.size == shoe_size {
            out.push(shoe);
        }
    }
    out
}

} // verus!
