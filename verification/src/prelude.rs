use vstd::prelude::*;
use vstd::string::StringExecFns;

use crate::biomes::Biome;
use crate::events::Event;
use crate::layers::Layer;

verus! {

/// Executable equality for categorical tag types, tied to structural
/// (spec-level) equality so that the set comparator can be generic.
pub trait TagEq: Sized {
    fn tag_eq(&self, other: &Self) -> (r: bool)
        ensures
            r == (*self == *other),
    ;
}

impl TagEq for Biome {
    fn tag_eq(&self, other: &Self) -> (r: bool)
        ensures
            r == (*self == *other),
    {
        *self == *other
    }
}

impl TagEq for Event {
    fn tag_eq(&self, other: &Self) -> (r: bool)
        ensures
            r == (*self == *other),
    {
        *self == *other
    }
}

impl TagEq for Layer {
    fn tag_eq(&self, other: &Self) -> (r: bool)
        ensures
            r == (*self == *other),
    {
        *self == *other
    }
}

/// The elements of `lhs` that also occur somewhere in `rhs`, in the order
/// they stand in `lhs` (a stable partition keeps duplicates).
pub open spec fn matches_in<T>(lhs: Seq<T>, rhs: Seq<T>) -> Seq<T>
    decreases lhs.len(),
{
    if lhs.len() == 0 {
        Seq::empty()
    } else if rhs.contains(lhs.last()) {
        matches_in(lhs.drop_last(), rhs).push(lhs.last())
    } else {
        matches_in(lhs.drop_last(), rhs)
    }
}

/// The elements of `lhs` that occur nowhere in `rhs`, in the order they
/// stand in `lhs`.
pub open spec fn misses_in<T>(lhs: Seq<T>, rhs: Seq<T>) -> Seq<T>
    decreases lhs.len(),
{
    if lhs.len() == 0 {
        Seq::empty()
    } else if rhs.contains(lhs.last()) {
        misses_in(lhs.drop_last(), rhs)
    } else {
        misses_in(lhs.drop_last(), rhs).push(lhs.last())
    }
}

/// Partition totality: the matched and unmatched halves of a set diff
/// partition the left-hand collection exactly. Every element of `lhs`
/// appears in exactly one of the two (stated over multisets, so duplicates
/// are accounted for one by one), and their lengths sum to the length of
/// `lhs`.
pub proof fn lemma_partition_totality<T>(lhs: Seq<T>, rhs: Seq<T>)
    ensures
        matches_in(lhs, rhs).len() + misses_in(lhs, rhs).len() == lhs.len(),
        matches_in(lhs, rhs).to_multiset().add(misses_in(lhs, rhs).to_multiset())
            == lhs.to_multiset(),
    decreases lhs.len(),
{
    broadcast use vstd::seq_lib::group_to_multiset_ensures;

    if lhs.len() == 0 {
        assert(matches_in(lhs, rhs).to_multiset().add(misses_in(lhs, rhs).to_multiset())
            =~= lhs.to_multiset());
    } else {
        let prefix = lhs.drop_last();
        let x = lhs.last();
        lemma_partition_totality(prefix, rhs);
        assert(lhs =~= prefix.push(x));
        assert(lhs.to_multiset() == prefix.to_multiset().insert(x));
        if rhs.contains(x) {
            assert(matches_in(lhs, rhs).to_multiset()
                == matches_in(prefix, rhs).to_multiset().insert(x));
        } else {
            assert(misses_in(lhs, rhs).to_multiset()
                == misses_in(prefix, rhs).to_multiset().insert(x));
        }
        assert(matches_in(lhs, rhs).to_multiset().add(misses_in(lhs, rhs).to_multiset())
            =~= lhs.to_multiset());
    }
}

/// The matched half of a set diff holds only elements the right-hand
/// collection has; the unmatched half only elements it lacks.
pub proof fn lemma_partition_membership<T>(lhs: Seq<T>, rhs: Seq<T>)
    ensures
        forall|i: int|
            0 <= i < matches_in(lhs, rhs).len() ==> rhs.contains(
                #[trigger] matches_in(lhs, rhs)[i],
            ),
        forall|i: int|
            0 <= i < misses_in(lhs, rhs).len() ==> !rhs.contains(
                #[trigger] misses_in(lhs, rhs)[i],
            ),
    decreases lhs.len(),
{
    if lhs.len() > 0 {
        let prefix = lhs.drop_last();
        let x = lhs.last();
        lemma_partition_membership(prefix, rhs);
        if rhs.contains(x) {
            let m = matches_in(lhs, rhs);
            assert(m == matches_in(prefix, rhs).push(x));
            assert forall|i: int| 0 <= i < m.len() implies rhs.contains(#[trigger] m[i]) by {
                if i < m.len() - 1 {
                    assert(m[i] == matches_in(prefix, rhs)[i]);
                } else {
                    assert(m[i] == x);
                }
            }
            assert(misses_in(lhs, rhs) == misses_in(prefix, rhs));
        } else {
            let w = misses_in(lhs, rhs);
            assert(w == misses_in(prefix, rhs).push(x));
            assert forall|i: int| 0 <= i < w.len() implies !rhs.contains(#[trigger] w[i]) by {
                if i < w.len() - 1 {
                    assert(w[i] == misses_in(prefix, rhs)[i]);
                } else {
                    assert(w[i] == x);
                }
            }
            assert(matches_in(lhs, rhs) == matches_in(prefix, rhs));
        }
    }
}

/// When every element of `lhs` occurs in `rhs`, the unmatched half of the
/// set diff is empty.
pub proof fn lemma_all_matched<T>(lhs: Seq<T>, rhs: Seq<T>)
    requires
        forall|i: int| 0 <= i < lhs.len() ==> rhs.contains(#[trigger] lhs[i]),
    ensures
        misses_in(lhs, rhs).len() == 0,
    decreases lhs.len(),
{
    if lhs.len() > 0 {
        assert(rhs.contains(lhs[lhs.len() - 1]));
        assert forall|i: int| 0 <= i < lhs.drop_last().len() implies rhs.contains(
            #[trigger] lhs.drop_last()[i],
        ) by {
            assert(lhs.drop_last()[i] == lhs[i]);
        }
        lemma_all_matched(lhs.drop_last(), rhs);
    }
}

/// Asymmetric, left-relative diff of two collections of categorical tags.
///
/// `right` and `wrong` partition the left-hand collection: `right` holds its
/// elements that the right-hand collection also has, `wrong` the ones it
/// lacks. Elements only the right-hand collection has appear nowhere here;
/// `missing` flags any membership or cardinality difference.
#[derive(Debug, Clone, PartialEq, Eq)]
pub struct Diff<T> {
    pub right: Vec<T>,
    pub wrong: Vec<T>,
    pub missing: bool,
}

impl<T: TagEq + Copy> Diff<T> {
    /// Stable-partitions `lhs` by membership in `rhs` and flags any
    /// difference in membership or size.
    pub fn with(lhs: &[T], rhs: &[T]) -> (r: Self)
        ensures
            r.right@ == matches_in(lhs@, rhs@),
            r.wrong@ == misses_in(lhs@, rhs@),
            r.missing == (misses_in(lhs@, rhs@).len() != 0 || rhs@.len() != lhs@.len()),
    {
        let mut right: Vec<T> = Vec::new();
        let mut wrong: Vec<T> = Vec::new();
        let mut i: usize = 0;
        while i < lhs.len()
            invariant
                i <= lhs@.len(),
                right@ == matches_in(lhs@.subrange(0, i as int), rhs@),
                wrong@ == misses_in(lhs@.subrange(0, i as int), rhs@),
            decreases lhs@.len() - i,
        {
            let item = lhs[i];
            if contains_tag(rhs, &item) {
                right.push(item);
            } else {
                wrong.push(item);
            }
            i += 1;
            proof {
                let prefix = lhs@.subrange(0, i as int);
                assert(prefix.drop_last() == lhs@.subrange(0, i - 1));
                assert(prefix.last() == lhs@[i - 1]);
            }
        }
        proof {
            assert(lhs@.subrange(0, lhs@.len() as int) == lhs@);
        }
        let missing = wrong.len() != 0 || rhs.len() != lhs.len();
        Diff { right, wrong, missing }
    }
}

/// How many base units one unit of the high denomination is worth.
pub const GOLD_IN_COPPER: usize = 1000;

/// How many base units one unit of the middle denomination is worth.
pub const SILVER_IN_COPPER: usize = 100;

/// A currency amount: counts of the three coin denominations.
#[derive(Debug, Clone, Copy, PartialEq, Eq, Structural)]
pub struct Coins {
    pub gold: u8,
    pub silver: u8,
    pub copper: u8,
}

/// The single base-unit total of a currency amount (mixed-radix expansion).
pub open spec fn copper_total(c: Coins) -> int {
    c.copper + c.silver * SILVER_IN_COPPER + c.gold * GOLD_IN_COPPER
}

impl Coins {
    pub fn new(gold: u8, silver: u8, copper: u8) -> (r: Self)
        ensures
            r.gold == gold,
            r.silver == silver,
            r.copper == copper,
    {
        Self { gold, silver, copper }
    }

    /// Reduces the amount to its total value in the base denomination.
    pub fn as_copper(&self) -> (r: usize)
        ensures
            r == copper_total(*self),
    {
        self.copper as usize + self.silver as usize * SILVER_IN_COPPER
            + self.gold as usize * GOLD_IN_COPPER
    }

    /// Display text for this amount.
    pub fn label(&self) -> (r: String)
        ensures
            r@ == coins_label_spec(*self),
    {
        if self.as_copper() == 0 {
            return String::from_str("Nothing");
        }
        let mut s = String::new();
        if self.gold > 0 {
            s.append(dec_of_u8(self.gold).as_str());
            s.append(" gold");
        }
        if self.silver > 0 {
            s.append(" ");
            s.append(dec_of_u8(self.silver).as_str());
            s.append(" silver");
        }
        if self.copper > 0 {
            s.append(" ");
            s.append(dec_of_u8(self.copper).as_str());
            s.append(" copper");
        }
        proof {
            assert(s@ =~= coins_label_spec(*self));
        }
        s
    }
}

/// Currency total monotonicity: of two amounts with the same high and
/// middle denomination counts, the one with the smaller base count
/// compares `Less`.
pub proof fn lemma_currency_monotonic(a: Coins, b: Coins)
    requires
        a.gold == b.gold,
        a.silver == b.silver,
        a.copper < b.copper,
    ensures
        ordering_of(copper_total(a), copper_total(b)) == OrderingText::Less,
{
}

/// The decimal digit characters.
pub open spec fn digit_seq(d: int) -> Seq<char> {
    if d == 0 {
        "0"@
    } else if d == 1 {
        "1"@
    } else if d == 2 {
        "2"@
    } else if d == 3 {
        "3"@
    } else if d == 4 {
        "4"@
    } else if d == 5 {
        "5"@
    } else if d == 6 {
        "6"@
    } else if d == 7 {
        "7"@
    } else if d == 8 {
        "8"@
    } else {
        "9"@
    }
}

/// The decimal rendering of a non-negative integer, most significant digit
/// first, without leading zeroes (except for zero itself).
pub open spec fn dec_str(n: nat) -> Seq<char>
    decreases n,
{
    if n < 10 {
        digit_seq(n as int)
    } else {
        dec_str(n / 10) + digit_seq((n % 10) as int)
    }
}

/// The single decimal digit `d` as text.
fn digit_str(d: u8) -> (r: &'static str)
    requires
        d < 10,
    ensures
        r@ == digit_seq(d as int),
{
    match d {
        0 => "0",
        1 => "1",
        2 => "2",
        3 => "3",
        4 => "4",
        5 => "5",
        6 => "6",
        7 => "7",
        8 => "8",
        _ => "9",
    }
}

/// Renders a denomination count in decimal.
fn dec_of_u8(n: u8) -> (s: String)
    ensures
        s@ == dec_str(n as nat),
    decreases n,
{
    if n < 10 {
        String::from_str(digit_str(n))
    } else {
        let mut s = dec_of_u8(n / 10);
        s.append(digit_str(n % 10));
        s
    }
}

/// The display text of a currency amount: "Nothing" for an empty purse,
/// else the non-zero denomination counts in order. Every part after the
/// first-position gold part carries a leading space, whether or not a part
/// precedes it.
pub open spec fn coins_label_spec(c: Coins) -> Seq<char> {
    if copper_total(c) == 0 {
        "Nothing"@
    } else {
        (if c.gold > 0 {
            dec_str(c.gold as nat) + " gold"@
        } else {
            Seq::empty()
        }) + (if c.silver > 0 {
            " "@ + dec_str(c.silver as nat) + " silver"@
        } else {
            Seq::empty()
        }) + (if c.copper > 0 {
            " "@ + dec_str(c.copper as nat) + " copper"@
        } else {
            Seq::empty()
        })
    }
}

/// An enemy's rarity classification.
///
/// Its order is deliberately *inverted* relative to declaration order:
/// `Common` compares greater than `Uncommon` and `Rare`, and the `Unknown`
/// sentinel (an unrecognized rarity) compares less than every concrete
/// rarity and equal only to itself. See [`rank_weight`]. A new variant must
/// be given a weight there, or comparisons involving it will regress.
#[derive(Debug, Clone, Copy, PartialEq, Eq, Structural)]
pub enum Rarity {
    Common,
    Uncommon,
    Rare,
    Unknown,
}

/// The weight that orders rarities: `Common` is the maximum, each rarer
/// classification weighs less, and the `Unknown` sentinel weighs least.
pub open spec fn rank_weight(r: Rarity) -> int {
    match r {
        Rarity::Common => 3,
        Rarity::Uncommon => 2,
        Rarity::Rare => 1,
        Rarity::Unknown => 0,
    }
}

impl Rarity {
    /// Three-way comparison in the inverted rarity order.
    pub fn compare(&self, other: &Rarity) -> (r: OrderingText)
        ensures
            r == ordering_of(rank_weight(*self), rank_weight(*other)),
    {
        let a = self.weight();
        let b = other.weight();
        if a < b {
            OrderingText::Less
        } else if a == b {
            OrderingText::Equal
        } else {
            OrderingText::Greater
        }
    }

    /// The display text of each rarity.
    pub open spec fn label_spec(self) -> Seq<char> {
        match self {
            Rarity::Common => "Common"@,
            Rarity::Uncommon => "Uncommon"@,
            Rarity::Rare => "Rare"@,
            Rarity::Unknown => "Unknown"@,
        }
    }

    /// Display text for this rarity.
    pub fn label(&self) -> (r: &'static str)
        ensures
            r@ == self.label_spec(),
    {
        match self {
            Rarity::Common => "Common",
            Rarity::Uncommon => "Uncommon",
            Rarity::Rare => "Rare",
            Rarity::Unknown => "Unknown",
        }
    }

    /// Executable counterpart of [`rank_weight`].
    fn weight(&self) -> (w: u8)
        ensures
            w == rank_weight(*self),
    {
        match self {
            Rarity::Common => 3,
            Rarity::Uncommon => 2,
            Rarity::Rare => 1,
            Rarity::Unknown => 0,
        }
    }
}

/// Every rarity compares `Equal` to itself in the inverted order.
pub proof fn lemma_rank_compare_reflexive(x: Rarity)
    ensures
        ordering_of(rank_weight(x), rank_weight(x)) == OrderingText::Equal,
{
}

/// A three-way ordering signal: how a secret's scalar field compares to the
/// guess's.
#[derive(Debug, Clone, Copy, PartialEq, Eq, Structural)]
pub enum OrderingText {
    Less,
    Equal,
    Greater,
}

/// The three-way comparison of two integers as an ordering signal.
pub open spec fn ordering_of(a: int, b: int) -> OrderingText {
    if a < b {
        OrderingText::Less
    } else if a == b {
        OrderingText::Equal
    } else {
        OrderingText::Greater
    }
}

impl OrderingText {
    pub fn is_eq(&self) -> (r: bool)
        ensures
            r == (*self == OrderingText::Equal),
    {
        *self == OrderingText::Equal
    }
}

/// An enemy record: immutable reference data the comparison engine reads.
#[derive(Debug, Clone, PartialEq, Eq)]
pub struct Enemy {
    pub id: u16,
    pub name: String,
    pub life: u16,
    pub defence: u16,
    pub coins: Coins,
    pub biomes: Vec<Biome>,
    pub events: Vec<Event>,
    pub layers: Vec<Layer>,
    pub rarity: Rarity,
}

/// What one attribute-by-attribute diff of a secret against a guess holds:
/// `d` relates the two records field by field, the secret always on the
/// left-hand, reference side.
pub open spec fn diff_matches(secret: Enemy, guess: Enemy, d: EnemyDiff) -> bool {
    &&& d.name == (secret.name@ == guess.name@)
    &&& d.life == ordering_of(secret.life as int, guess.life as int)
    &&& d.defence == ordering_of(secret.defence as int, guess.defence as int)
    &&& d.coins == ordering_of(copper_total(secret.coins), copper_total(guess.coins))
    &&& d.rarity == ordering_of(rank_weight(secret.rarity), rank_weight(guess.rarity))
    &&& set_diff_matches(secret.biomes@, guess.biomes@, d.biomes)
    &&& set_diff_matches(secret.events@, guess.events@, d.events)
    &&& set_diff_matches(secret.layers@, guess.layers@, d.layers)
}

/// What the set comparator's output holds for the given pair of inputs.
pub open spec fn set_diff_matches<T>(lhs: Seq<T>, rhs: Seq<T>, d: Diff<T>) -> bool {
    &&& d.right@ == matches_in(lhs, rhs)
    &&& d.wrong@ == misses_in(lhs, rhs)
    &&& d.missing == (misses_in(lhs, rhs).len() != 0 || rhs.len() != lhs.len())
}

impl Enemy {
    pub fn new(
        id: u16,
        name: String,
        life: u16,
        defence: u16,
        coins: Coins,
        biomes: Vec<Biome>,
        events: Vec<Event>,
        layers: Vec<Layer>,
        rarity: Rarity,
    ) -> (r: Self)
        ensures
            r.id == id,
            r.name@ == name@,
            r.life == life,
            r.defence == defence,
            r.coins == coins,
            r.biomes@ == biomes@,
            r.events@ == events@,
            r.layers@ == layers@,
            r.rarity == rarity,
    {
        Self { id, name, life, defence, coins, biomes, events, layers, rarity }
    }

    /// Compares every attribute of this enemy (the secret) against `other`
    /// (the guess) and assembles the aggregate diff.
    pub fn diff(&self, other: &Enemy) -> (r: EnemyDiff)
        ensures
            diff_matches(*self, *other, r),
    {
        let name = self.name == other.name;
        let life = cmp_u16(self.life, other.life);
        let defence = cmp_u16(self.defence, other.defence);
        let coins = cmp_usize(self.coins.as_copper(), other.coins.as_copper());
        let biomes = Diff::with(self.biomes.as_slice(), other.biomes.as_slice());
        let events = Diff::with(self.events.as_slice(), other.events.as_slice());
        let layers = Diff::with(self.layers.as_slice(), other.layers.as_slice());
        let rarity = self.rarity.compare(&other.rarity);

        EnemyDiff { name, life, defence, coins, biomes, events, layers, rarity }
    }
}

/// The aggregate diff of one comparison: a name-equality flag, one ordering
/// signal per scalar field, and one asymmetric set diff per categorical
/// field.
#[derive(Debug, Clone, PartialEq, Eq)]
pub struct EnemyDiff {
    pub name: bool,
    pub life: OrderingText,
    pub defence: OrderingText,
    pub coins: OrderingText,
    pub biomes: Diff<Biome>,
    pub events: Diff<Event>,
    pub layers: Diff<Layer>,
    pub rarity: OrderingText,
}

/// When a diff counts as comparing an entity with itself: the names match,
/// every scalar signal is `Equal`, and no categorical diff has unmatched
/// elements. `missing` is ignored on purpose: a guess that over-includes
/// tags still counts as the same enemy, one that lacks tags does not.
pub open spec fn is_same_spec(d: EnemyDiff) -> bool {
    &&& d.name
    &&& d.life == OrderingText::Equal
    &&& d.defence == OrderingText::Equal
    &&& d.coins == OrderingText::Equal
    &&& d.rarity == OrderingText::Equal
    &&& d.biomes.wrong@.len() == 0
    &&& d.events.wrong@.len() == 0
    &&& d.layers.wrong@.len() == 0
}

impl EnemyDiff {
    /// Whether or not this diff was the result of two of the same enemy.
    pub fn is_same(&self) -> (r: bool)
        ensures
            r == is_same_spec(*self),
    {
        self.name && self.life.is_eq() && self.defence.is_eq() && self.coins.is_eq()
            && self.rarity.is_eq() && self.biomes.wrong.len() == 0
            && self.events.wrong.len() == 0 && self.layers.wrong.len() == 0
    }
}

/// Self-comparison identity: a diff of any enemy against itself reports
/// the same enemy, and every scalar signal in it is `Equal`.
pub proof fn lemma_self_diff_identity(e: Enemy, d: EnemyDiff)
    requires
        diff_matches(e, e, d),
    ensures
        is_same_spec(d),
        d.life == OrderingText::Equal,
        d.defence == OrderingText::Equal,
        d.coins == OrderingText::Equal,
        d.rarity == OrderingText::Equal,
{
    assert forall|i: int| 0 <= i < e.biomes@.len() implies e.biomes@.contains(
        #[trigger] e.biomes@[i],
    ) by {}
    lemma_all_matched(e.biomes@, e.biomes@);
    assert forall|i: int| 0 <= i < e.events@.len() implies e.events@.contains(
        #[trigger] e.events@[i],
    ) by {}
    lemma_all_matched(e.events@, e.events@);
    assert forall|i: int| 0 <= i < e.layers@.len() implies e.layers@.contains(
        #[trigger] e.layers@[i],
    ) by {}
    lemma_all_matched(e.layers@, e.layers@);
}

/// Three-way comparison of two numeric field values.
fn cmp_u16(a: u16, b: u16) -> (r: OrderingText)
    ensures
        r == ordering_of(a as int, b as int),
{
    if a < b {
        OrderingText::Less
    } else if a == b {
        OrderingText::Equal
    } else {
        OrderingText::Greater
    }
}

/// Three-way comparison of two derived totals.
fn cmp_usize(a: usize, b: usize) -> (r: OrderingText)
    ensures
        r == ordering_of(a as int, b as int),
{
    if a < b {
        OrderingText::Less
    } else if a == b {
        OrderingText::Equal
    } else {
        OrderingText::Greater
    }
}

/// Linear membership test against a collection of categorical tags.
fn contains_tag<T: TagEq>(s: &[T], x: &T) -> (r: bool)
    ensures
        r == s@.contains(*x),
{
    let mut j: usize = 0;
    while j < s.len()
        invariant
            j <= s@.len(),
            forall|k: int| 0 <= k < j ==> s@[k] != *x,
        decreases s@.len() - j,
    {
        if s[j].tag_eq(x) {
            return true;
        }
        j += 1;
    }
    false
}

} // verus!
