//! Scenario groups and the enumeration of their Cartesian product.
//!
//! A collection of groups with sizes `s0, s1, .., sn` stands for `s0 * s1 * .. * sn`
//! scenarios. They are numbered in lexicographic order of their coordinates, so
//! that the coordinate of the group added last changes fastest.
use vstd::prelude::*;
use vstd::arithmetic::div_mod::{lemma_fundamental_div_mod, lemma_fundamental_div_mod_converse};
use vstd::arithmetic::mul::lemma_mul_is_commutative;

verus! {

/// How many scenarios groups of these sizes span: the product of the sizes.
pub open spec fn product(sizes: Seq<usize>) -> nat
    decreases sizes.len(),
{
    if sizes.len() == 0 {
        1
    } else {
        product(sizes.drop_last()) * (sizes.last() as nat)
    }
}

/// The coordinates of scenario number `index`: its digits in the mixed radix
/// `sizes`, the last digit being the least significant.
pub open spec fn coordinates(sizes: Seq<usize>, index: nat) -> Seq<usize>
    decreases sizes.len(),
{
    if sizes.len() == 0 {
        Seq::empty()
    } else {
        coordinates(sizes.drop_last(), index / (sizes.last() as nat)).push(
            (index % (sizes.last() as nat)) as usize,
        )
    }
}

/// The number of the scenario with the coordinates `coords`.
pub open spec fn position(sizes: Seq<usize>, coords: Seq<usize>) -> nat
    decreases sizes.len(),
{
    if sizes.len() == 0 {
        0
    } else {
        position(sizes.drop_last(), coords.drop_last()) * (sizes.last() as nat) + (
        coords.last() as nat)
    }
}

/// `coords` names one scenario: one coordinate for each group, each below the
/// group's size.
pub open spec fn within(sizes: Seq<usize>, coords: Seq<usize>) -> bool {
    &&& coords.len() == sizes.len()
    &&& forall|i: int| 0 <= i < sizes.len() ==> coords[i] < sizes[i]
}

/// `a` comes before `b` in lexicographic order: they agree up to some place,
/// and there `a` is smaller.
pub open spec fn precedes(a: Seq<usize>, b: Seq<usize>) -> bool {
    exists|k: int|
        0 <= k < a.len() && k < b.len() && a[k] < b[k] && (forall|j: int|
            0 <= j < k ==> a[j] == b[j])
}

/// Every size is at least one.
pub open spec fn all_positive(sizes: Seq<usize>) -> bool {
    forall|i: int| 0 <= i < sizes.len() ==> sizes[i] >= 1
}

/// Adding a group multiplies the number of scenarios by its size.
pub proof fn lemma_product_push(sizes: Seq<usize>, size: usize)
    ensures
        product(sizes.push(size)) == product(sizes) * (size as nat),
{
    assert(sizes.push(size).drop_last() =~= sizes);
}

/// Groups of positive sizes span at least one scenario, and no fewer than the
/// groups before the last one do.
pub proof fn lemma_product_positive(sizes: Seq<usize>)
    requires
        all_positive(sizes),
    ensures
        product(sizes) >= 1,
        sizes.len() > 0 ==> product(sizes.drop_last()) <= product(sizes),
    decreases sizes.len(),
{
    if sizes.len() > 0 {
        let front = sizes.drop_last();
        let s = sizes.last() as nat;
        lemma_product_positive(front);
        assert(product(front) * s >= product(front)) by (nonlinear_arith)
            requires
                s >= 1,
        ;
    }
}

/// Scenario numbers are split without loss: below `p * s`, the quotient by `s`
/// is below `p`, the remainder below `s`, and the two give the number back.
proof fn lemma_split(index: nat, p: nat, s: nat)
    requires
        index < p * s,
    ensures
        s > 0,
        index / s < p,
        index % s < s,
        (index / s) * s + index % s == index,
{
    assert(s > 0) by (nonlinear_arith)
        requires
            index < p * s,
    ;
    lemma_fundamental_div_mod(index as int, s as int);
    lemma_mul_is_commutative(s as int, (index / s) as int);
    assert(index / s < p) by (nonlinear_arith)
        requires
            index < p * s,
            s > 0,
            (index / s) * s + index % s == index,
            0 <= index % s,
    ;
}

/// A quotient and a remainder put together split into themselves again.
proof fn lemma_join(q: nat, r: nat, p: nat, s: nat)
    requires
        q < p,
        r < s,
    ensures
        q * s + r < p * s,
        (q * s + r) / s == q,
        (q * s + r) % s == r,
{
    lemma_mul_is_commutative(q as int, s as int);
    lemma_fundamental_div_mod_converse((q * s + r) as int, s as int, q as int, r as int);
    assert(q * s + r < p * s) by (nonlinear_arith)
        requires
            q < p,
            r < s,
    ;
}

/// Every scenario number below the product has one coordinate for each group,
/// each below the group's size.
pub proof fn lemma_coordinates_within(sizes: Seq<usize>, index: nat)
    requires
        index < product(sizes),
    ensures
        within(sizes, coordinates(sizes, index)),
    decreases sizes.len(),
{
    if sizes.len() > 0 {
        let front = sizes.drop_last();
        let s = sizes.last() as nat;
        lemma_split(index, product(front), s);
        lemma_coordinates_within(front, index / s);
    }
}

/// The enumeration loses nothing: the coordinates of a scenario number lead
/// back to that number.
pub proof fn lemma_position_of_coordinates(sizes: Seq<usize>, index: nat)
    requires
        index < product(sizes),
    ensures
        position(sizes, coordinates(sizes, index)) == index,
    decreases sizes.len(),
{
    if sizes.len() > 0 {
        let front = sizes.drop_last();
        let s = sizes.last() as nat;
        lemma_split(index, product(front), s);
        lemma_position_of_coordinates(front, index / s);
        let c = coordinates(sizes, index);
        assert(c.drop_last() =~= coordinates(front, index / s));
    }
}

/// No two scenario numbers share their coordinates.
pub proof fn lemma_coordinates_injective(sizes: Seq<usize>, i: nat, j: nat)
    requires
        i < product(sizes),
        j < product(sizes),
        coordinates(sizes, i) == coordinates(sizes, j),
    ensures
        i == j,
{
    lemma_position_of_coordinates(sizes, i);
    lemma_position_of_coordinates(sizes, j);
}

/// The enumeration reaches everything: each admissible tuple of coordinates
/// belongs to a scenario number below the product, and that number has these
/// coordinates.
pub proof fn lemma_coordinates_of_position(sizes: Seq<usize>, coords: Seq<usize>)
    requires
        within(sizes, coords),
    ensures
        position(sizes, coords) < product(sizes),
        coordinates(sizes, position(sizes, coords)) == coords,
    decreases sizes.len(),
{
    if sizes.len() == 0 {
        assert(coords =~= Seq::<usize>::empty());
    } else {
        let front = sizes.drop_last();
        let s = sizes.last() as nat;
        let q = position(front, coords.drop_last());
        let r = coords.last() as nat;
        lemma_coordinates_of_position(front, coords.drop_last());
        lemma_join(q, r, product(front), s);
        assert(coordinates(front, q).push(r as usize) =~= coords);
    }
}

/// The enumeration is lexicographic: of two scenario numbers, the smaller has
/// the coordinates that come first.
pub proof fn lemma_coordinates_ordered(sizes: Seq<usize>, i: nat, j: nat)
    requires
        i < j < product(sizes),
    ensures
        precedes(coordinates(sizes, i), coordinates(sizes, j)),
    decreases sizes.len(),
{
    if sizes.len() > 0 {
        let front = sizes.drop_last();
        let s = sizes.last() as nat;
        let ci = coordinates(sizes, i);
        let cj = coordinates(sizes, j);
        lemma_split(i, product(front), s);
        lemma_split(j, product(front), s);
        lemma_coordinates_within(sizes, i);
        lemma_coordinates_within(sizes, j);
        assert(i / s <= j / s) by (nonlinear_arith)
            requires
                i < j,
                s > 0,
                (i / s) * s + i % s == i,
                (j / s) * s + j % s == j,
                i % s < s,
                0 <= j % s,
        ;
        if i / s < j / s {
            lemma_coordinates_ordered(front, i / s, j / s);
            let fi = coordinates(front, i / s);
            let fj = coordinates(front, j / s);
            let k = choose|k: int|
                0 <= k < fi.len() && k < fj.len() && fi[k] < fj[k] && (forall|m: int|
                    0 <= m < k ==> fi[m] == fj[m]);
            lemma_coordinates_within(front, i / s);
            lemma_coordinates_within(front, j / s);
            assert(ci[k] == fi[k] && cj[k] == fj[k]);
            assert forall|m: int| 0 <= m < k implies ci[m] == cj[m] by {
                assert(ci[m] == fi[m] && cj[m] == fj[m]);
            }
            assert(0 <= k < ci.len() && k < cj.len() && ci[k] < cj[k]);
        } else {
            let k = sizes.len() - 1;
            assert(i % s < j % s);
            assert(ci[k] < cj[k]);
            assert forall|m: int| 0 <= m < k implies ci[m] == cj[m] by {
                assert(ci[m] == coordinates(front, i / s)[m]);
                assert(cj[m] == coordinates(front, j / s)[m]);
            }
            assert(0 <= k < ci.len() && k < cj.len() && ci[k] < cj[k]);
        }
    }
}

/// The next scenario number moves the last coordinate on by one, and back to
/// zero at the last group's size.
pub proof fn lemma_coordinates_successor(sizes: Seq<usize>, index: nat)
    requires
        sizes.len() > 0,
        index + 1 < product(sizes),
    ensures
        coordinates(sizes, index + 1).last() as nat == (coordinates(sizes, index).last() as nat
            + 1) % (sizes.last() as nat),
        coordinates(sizes, index).last() + 1 < sizes.last() ==> coordinates(
            sizes,
            index + 1,
        ).drop_last() == coordinates(sizes, index).drop_last(),
{
    let front = sizes.drop_last();
    let s = sizes.last() as nat;
    lemma_split(index, product(front), s);
    lemma_split(index + 1, product(front), s);
    let q = index / s;
    let r = index % s;
    if r + 1 < s {
        lemma_join(q, r + 1, product(front), s);
        assert((r + 1) % s == r + 1) by (nonlinear_arith)
            requires
                r + 1 < s,
        ;
        assert(coordinates(sizes, index + 1).drop_last() =~= coordinates(front, q));
        assert(coordinates(sizes, index).drop_last() =~= coordinates(front, q));
    } else {
        assert((q + 1) * s + 0 == index + 1) by (nonlinear_arith)
            requires
                q * s + r == index,
                r + 1 == s,
        ;
        lemma_fundamental_div_mod_converse((index + 1) as int, s as int, (q + 1) as int, 0);
        assert((r + 1) % s == 0) by (nonlinear_arith)
            requires
                r + 1 == s,
                s > 0,
        ;
    }
}

/// A named group of scenarios.
#[derive(Clone, Debug, PartialEq, Eq)]
pub struct ScenarioGroup {
    pub name: String,
    pub size: usize,
}

impl ScenarioGroup {
    /// A group of `size` scenarios.
    pub fn new(name: &str, size: usize) -> (group: ScenarioGroup)
        ensures
            group.name@ == name@,
            group.size == size,
    {
        ScenarioGroup { name: name.to_owned(), size }
    }
}

/// One scenario: its number in the enumeration, and its coordinate in each
/// group.
#[derive(Clone, Debug, PartialEq, Eq)]
pub struct ScenarioIndex {
    pub index: usize,
    pub indices: Vec<usize>,
}

impl ScenarioIndex {
    /// The scenario number `index` with the coordinates `indices`.
    pub fn new(index: usize, indices: Vec<usize>) -> (scenario: ScenarioIndex)
        ensures
            scenario.index == index,
            scenario.indices == indices,
    {
        ScenarioIndex { index, indices }
    }
}

/// The scenario groups of a run, in the order in which they were added.
#[derive(Clone, Debug)]
pub struct ScenarioGroupCollection {
    groups: Vec<ScenarioGroup>,
}

impl ScenarioGroupCollection {
    /// The sizes of the groups, in the order in which they were added.
    pub closed spec fn sizes(&self) -> Seq<usize> {
        Seq::new(self.groups@.len(), |i: int| self.groups@[i].size)
    }

    /// The names of the groups, in the order in which they were added.
    pub closed spec fn names(&self) -> Seq<Seq<char>> {
        Seq::new(self.groups@.len(), |i: int| self.groups@[i].name@)
    }

    /// Every group has at least one scenario, and the number of scenarios fits
    /// the machine.
    pub open spec fn wf(&self) -> bool {
        &&& self.names().len() == self.sizes().len()
        &&& all_positive(self.sizes())
        &&& product(self.sizes()) <= usize::MAX
    }

    /// A collection without groups. It stands for one scenario, which has no
    /// coordinates.
    pub fn new() -> (collection: ScenarioGroupCollection)
        ensures
            collection.wf(),
            collection.sizes() == Seq::<usize>::empty(),
            collection.names() == Seq::<Seq<char>>::empty(),
    {
        let collection = ScenarioGroupCollection { groups: Vec::new() };
        assert(collection.sizes() =~= Seq::<usize>::empty());
        assert(collection.names() =~= Seq::<Seq<char>>::empty());
        collection
    }

    /// How many groups there are.
    pub fn len(&self) -> (n: usize)
        ensures
            n == self.sizes().len(),
    {
        self.groups.len()
    }

    /// The number of scenarios that the collection would stand for with one
    /// more group of `size` scenarios, or `None` where such a group cannot be
    /// added: where `size` is zero or the number no longer fits the machine.
    pub fn size_with(&self, size: usize) -> (total: Option<usize>)
        requires
            self.wf(),
        ensures
            total == if size >= 1 && product(self.sizes()) * size <= usize::MAX {
                Some((product(self.sizes()) * size) as usize)
            } else {
                None
            },
    {
        if size == 0 {
            return None;
        }
        let count: usize = self.size();
        count.checked_mul(size)
    }

    /// Adds a group of `size` scenarios after the groups that are there.
    pub fn add_group(&mut self, name: &str, size: usize)
        requires
            old(self).wf(),
            size >= 1,
            product(old(self).sizes()) * size <= usize::MAX,
        ensures
            final(self).wf(),
            final(self).sizes() == old(self).sizes().push(size),
            final(self).names() == old(self).names().push(name@),
    {
        self.groups.push(ScenarioGroup::new(name, size));
        assert(self.sizes() =~= old(self).sizes().push(size));
        assert(self.names() =~= old(self).names().push(name@));
        proof {
            lemma_product_push(old(self).sizes(), size);
        }
    }

    /// The number of scenarios: the product of the groups' sizes.
    pub fn size(&self) -> (count: usize)
        requires
            self.wf(),
        ensures
            count == product(self.sizes()),
    {
        let mut count: usize = 1;
        let mut i: usize = 0;
        while i < self.groups.len()
            invariant
                self.wf(),
                i <= self.groups.len(),
                count == product(self.sizes().take(i as int)),
            decreases self.groups.len() - i,
        {
            proof {
                let upto = self.sizes().take(i as int + 1);
                assert(upto.drop_last() =~= self.sizes().take(i as int));
                assert(upto.last() == self.groups@[i as int].size);
                lemma_product_prefix(self.sizes(), i as int + 1);
            }
            count = count * self.groups[i].size;
            i += 1;
        }
        assert(self.sizes().take(i as int) =~= self.sizes());
        count
    }

    /// The coordinates of scenario number `index`.
    fn coordinates_of(&self, index: usize) -> (coords: Vec<usize>)
        requires
            self.wf(),
        ensures
            coords@ == coordinates(self.sizes(), index as nat),
    {
        let n: usize = self.groups.len();
        let mut coords: Vec<usize> = Vec::new();
        let mut i: usize = 0;
        while i < n
            invariant
                i <= n,
                coords.len() == i,
            decreases n - i,
        {
            coords.push(0);
            i += 1;
        }
        let mut rest: usize = index;
        let mut j: usize = n;
        assert(self.sizes().take(n as int) =~= self.sizes());
        assert(coords@.subrange(n as int, n as int) =~= Seq::<usize>::empty());
        while j > 0
            invariant
                self.wf(),
                n == self.groups.len(),
                j <= n,
                coords.len() == n,
                coordinates(self.sizes(), index as nat) =~= coordinates(
                    self.sizes().take(j as int),
                    rest as nat,
                ) + coords@.subrange(j as int, n as int),
            decreases j,
        {
            let size: usize = self.groups[j - 1].size;
            proof {
                let upto = self.sizes().take(j as int);
                assert(upto.drop_last() =~= self.sizes().take(j as int - 1));
                assert(upto.last() == size);
                assert(self.sizes()[j as int - 1] >= 1);
            }
            let ghost before = coords@;
            coords.set(j - 1, rest % size);
            assert(coords@.subrange(j as int - 1, n as int) =~= seq![(rest % size) as usize]
                + before.subrange(j as int, n as int));
            rest = rest / size;
            j -= 1;
        }
        assert(self.sizes().take(0) =~= Seq::<usize>::empty());
        assert(coords@.subrange(0, n as int) =~= coords@);
        coords
    }

    /// Every scenario of the collection, in the order of the enumeration: the
    /// scenario at position `k` has the number `k` and the coordinates of `k`.
    pub fn scenario_indices(&self) -> (scenarios: Vec<ScenarioIndex>)
        requires
            self.wf(),
        ensures
            scenarios.len() == product(self.sizes()),
            forall|k: int|
                0 <= k < scenarios.len() ==> (#[trigger] scenarios[k]).index == k
                    && scenarios[k].indices@ == coordinates(self.sizes(), k as nat),
    {
        let count: usize = self.size();
        let mut scenarios: Vec<ScenarioIndex> = Vec::new();
        let mut k: usize = 0;
        while k < count
            invariant
                self.wf(),
                k <= count,
                scenarios.len() == k,
                forall|m: int|
                    0 <= m < k ==> (#[trigger] scenarios[m]).index == m && scenarios[m].indices@
                        == coordinates(self.sizes(), m as nat),
            decreases count - k,
        {
            let indices = self.coordinates_of(k);
            scenarios.push(ScenarioIndex::new(k, indices));
            k += 1;
        }
        scenarios
    }
}

/// The groups up to any place span no more scenarios than all of them do.
proof fn lemma_product_prefix(sizes: Seq<usize>, n: int)
    requires
        all_positive(sizes),
        0 <= n <= sizes.len(),
    ensures
        product(sizes.take(n)) <= product(sizes),
    decreases sizes.len() - n,
{
    if n < sizes.len() {
        let next = sizes.take(n + 1);
        assert(next.drop_last() =~= sizes.take(n));
        lemma_product_positive(next);
        lemma_product_prefix(sizes, n + 1);
    } else {
        assert(sizes.take(n) =~= sizes);
    }
}

} // verus!
