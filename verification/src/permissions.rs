//! Sets of permissions, held as one integer bit mask.

use crate::permission::{lemma_one_bit, lemma_union_push, Permission, MASK_ALL};
use crate::text::{join, joined, views};
use vstd::prelude::*;
use vstd::std_specs::convert::FromSpecImpl;

verus! {

/// A set of permissions: a bit mask that holds no bit outside [`MASK_ALL`].
///
/// Every constructor drops the bits outside the mask, so a value of this type
/// always stands for a subset of the non-sentinel permissions.
#[derive(Debug, PartialEq, Eq, Clone, Copy, Structural)]
pub struct Permissions(i32);

impl View for Permissions {
    type V = i32;

    closed spec fn view(&self) -> i32 {
        self.0
    }
}

/// Whether a mask holds no bit outside [`MASK_ALL`].
pub open spec fn within_mask(n: i32) -> bool {
    n & MASK_ALL == n
}

/// The test that picks the permissions whose bit is set in `n`.
pub open spec fn selects(n: i32) -> spec_fn(Permission) -> bool {
    |p: Permission| p.spec_mask() & n != 0
}

/// The permissions whose bit is set in `n`, in enumeration order.
pub open spec fn members(n: i32) -> Seq<Permission> {
    Permission::all().filter(selects(n))
}

/// The names of the permissions whose bit is set in `n`, in enumeration order.
pub open spec fn member_names(n: i32) -> Seq<Seq<char>> {
    members(n).map_values(|p: Permission| p.name())
}

impl Permissions {
    /// The invariant of the type: no bit outside the mask of all permissions.
    #[verifier::type_invariant]
    pub open spec fn wf(self) -> bool {
        within_mask(self@)
    }

    /// The set whose mask is `n` without the bits outside [`MASK_ALL`].
    pub closed spec fn of(n: i32) -> Permissions {
        Permissions(n & MASK_ALL)
    }

    /// The set with no permission in it.
    pub fn empty() -> (set: Permissions)
        ensures
            set@ == 0,
            set.wf(),
    {
        assert(0i32 & 0x5ebdffi32 == 0i32) by (bit_vector);
        Permissions(0)
    }

    /// The set that a sequence of raw masks adds up to.
    pub fn from_masks(masks: &[i32]) -> (set: Permissions)
        ensures
            set@ == union_of_masks(masks@) & MASK_ALL,
            set == Permissions::of(union_of_masks(masks@)),
            set.wf(),
    {
        let mut acc: i32 = 0;
        let mut i: usize = 0;
        while i < masks.len()
            invariant
                i <= masks.len(),
                acc == union_of_masks(masks@.take(i as int)),
            decreases masks.len() - i,
        {
            assert(masks@.take(i + 1).drop_last() =~= masks@.take(i as int));
            acc = acc | masks[i];
            i += 1;
        }
        assert(masks@.take(masks.len() as int) =~= masks@);
        Permissions::from(acc)
    }

    /// The mask as a raw integer.
    pub fn to_int(&self) -> (n: i32)
        ensures
            n == self@,
            within_mask(n),
    {
        proof {
            use_type_invariant(self);
        }
        self.0
    }

    /// Whether the set holds no permission.
    pub fn is_empty(&self) -> (b: bool)
        ensures
            b == (self@ == 0),
    {
        self.0 == 0
    }

    /// Whether the set holds a bit of the value of `p`.
    ///
    /// For a permission of [`Permission::variants`] this tells whether its one
    /// bit is set. The sentinels have no bit of their own: `Offline`, whose
    /// value is 0, is in no set, and `NoHttps`, whose value has every bit, is
    /// in every set but the empty one, though [`Permissions::to_vec`] never
    /// lists it.
    pub fn contains(&self, p: Permission) -> (b: bool)
        ensures
            b == selects(self@)(p),
    {
        p.mask() & self.0 != 0
    }

    /// The permissions of the set, in enumeration order.
    pub fn to_vec(&self) -> (list: Vec<Permission>)
        ensures
            list@ == members(self@),
    {
        let all = Permission::variants();
        let mut list: Vec<Permission> = Vec::new();
        let mut i: usize = 0;
        while i < all.len()
            invariant
                i <= all.len(),
                all@ == Permission::all(),
                list@ == all@.take(i as int).filter(selects(self@)),
            decreases all.len() - i,
        {
            proof {
                reveal(Seq::filter);
                assert(all@.take(i + 1).drop_last() =~= all@.take(i as int));
            }
            let p = all[i];
            if p.mask() & self.0 != 0 {
                list.push(p);
            }
            i += 1;
        }
        assert(all@.take(all.len() as int) =~= all@);
        list
    }

    /// The canonical names of the permissions of the set, in enumeration order.
    pub fn names(&self) -> (list: Vec<&'static str>)
        ensures
            views(list@) == member_names(self@),
    {
        let members = self.to_vec();
        let mut list: Vec<&'static str> = Vec::new();
        let mut i: usize = 0;
        while i < members.len()
            invariant
                i <= members.len(),
                list@.len() == i,
                forall|k: int| 0 <= k < i ==> (#[trigger] list@[k])@ == members@[k].name(),
            decreases members.len() - i,
        {
            list.push(members[i].to_str());
            i += 1;
        }
        assert(views(list@) =~= member_names(self@));
        list
    }

    /// The names of the permissions of the set, joined by commas.
    pub fn to_string(&self) -> (s: String)
        ensures
            s@ == joined(member_names(self@), ","@),
    {
        let names = self.names();
        join(names.as_slice(), ",")
    }
}

/// The bitwise OR of a sequence of raw masks.
pub open spec fn union_of_masks(masks: Seq<i32>) -> i32
    decreases masks.len(),
{
    if masks.len() == 0 {
        0
    } else {
        union_of_masks(masks.drop_last()) | masks.last()
    }
}

impl Default for Permissions {
    fn default() -> (set: Permissions)
        ensures
            set@ == 0,
            set.wf(),
    {
        Permissions::empty()
    }
}

impl From<i32> for Permissions {
    /// Keeps the bits of `n` that lie within [`MASK_ALL`].
    fn from(n: i32) -> (set: Permissions)
        ensures
            set@ == n & MASK_ALL,
            set.wf(),
    {
        let m = n & MASK_ALL;
        assert((n & 0x5ebdffi32) & 0x5ebdffi32 == n & 0x5ebdffi32) by (bit_vector);
        Permissions(m)
    }
}

impl FromSpecImpl<i32> for Permissions {
    open spec fn obeys_from_spec() -> bool {
        true
    }

    open spec fn from_spec(n: i32) -> Permissions {
        Permissions::of(n)
    }
}

impl From<Permission> for Permissions {
    /// The set of one permission. `Offline` gives the empty set and `NoHttps`
    /// the set of all permissions.
    fn from(p: Permission) -> (set: Permissions)
        ensures
            set@ == p.spec_mask() & MASK_ALL,
            !p.is_sentinel() ==> set@ == p.spec_mask(),
            set.wf(),
    {
        proof {
            if !p.is_sentinel() {
                lemma_one_bit(p);
            }
        }
        Permissions::from(p.mask())
    }
}

impl FromSpecImpl<Permission> for Permissions {
    open spec fn obeys_from_spec() -> bool {
        true
    }

    open spec fn from_spec(p: Permission) -> Permissions {
        Permissions::of(p.spec_mask())
    }
}

impl<'a> From<&'a [Permission]> for Permissions {
    /// The set of the permissions of a list.
    fn from(list: &'a [Permission]) -> (set: Permissions)
        ensures
            set@ == Permission::union(list@) & MASK_ALL,
            set.wf(),
    {
        let mut acc: i32 = 0;
        let mut i: usize = 0;
        while i < list.len()
            invariant
                i <= list.len(),
                acc == Permission::union(list@.take(i as int)),
            decreases list.len() - i,
        {
            assert(list@.take(i + 1).drop_last() =~= list@.take(i as int));
            acc = acc | list[i].mask();
            i += 1;
        }
        assert(list@.take(list.len() as int) =~= list@);
        Permissions::from(acc)
    }
}

impl<'a> FromSpecImpl<&'a [Permission]> for Permissions {
    open spec fn obeys_from_spec() -> bool {
        true
    }

    open spec fn from_spec(list: &'a [Permission]) -> Permissions {
        Permissions::of(Permission::union(list@))
    }
}

impl From<Permissions> for i32 {
    /// The mask of the set as a raw integer.
    fn from(set: Permissions) -> (n: i32)
        ensures
            n == set@,
            within_mask(n),
    {
        set.to_int()
    }
}

impl FromSpecImpl<Permissions> for i32 {
    open spec fn obeys_from_spec() -> bool {
        true
    }

    open spec fn from_spec(set: Permissions) -> i32 {
        set@
    }
}

impl From<Permissions> for Vec<Permission> {
    /// The permissions of the set, in enumeration order.
    fn from(set: Permissions) -> (list: Vec<Permission>)
        ensures
            list@ == members(set@),
    {
        set.to_vec()
    }
}

impl FromSpecImpl<Permissions> for Vec<Permission> {
    /// A list has no value in specifications but its view: what the
    /// conversion gives is stated by the contract of `from`.
    open spec fn obeys_from_spec() -> bool {
        false
    }

    open spec fn from_spec(set: Permissions) -> Vec<Permission> {
        arbitrary()
    }
}

impl From<Permissions> for Vec<&'static str> {
    /// The canonical names of the permissions of the set, in enumeration
    /// order.
    fn from(set: Permissions) -> (list: Vec<&'static str>)
        ensures
            views(list@) == member_names(set@),
    {
        set.names()
    }
}

impl FromSpecImpl<Permissions> for Vec<&'static str> {
    /// A list has no value in specifications but its view: what the
    /// conversion gives is stated by the contract of `from`.
    open spec fn obeys_from_spec() -> bool {
        false
    }

    open spec fn from_spec(set: Permissions) -> Vec<&'static str> {
        arbitrary()
    }
}

impl From<Permissions> for String {
    /// The names of the permissions of the set, joined by commas.
    fn from(set: Permissions) -> (s: String)
        ensures
            s@ == joined(member_names(set@), ","@),
    {
        set.to_string()
    }
}

impl FromSpecImpl<Permissions> for String {
    /// A string has no value in specifications but its view: what the
    /// conversion gives is stated by the contract of `from`.
    open spec fn obeys_from_spec() -> bool {
        false
    }

    open spec fn from_spec(set: Permissions) -> String {
        arbitrary()
    }
}

/// What [`Permissions::of`] keeps of a mask.
pub proof fn lemma_of_view(n: i32)
    ensures
        Permissions::of(n)@ == n & MASK_ALL,
        Permissions::of(n).wf(),
{
    assert((n & 0x5ebdffi32) & 0x5ebdffi32 == n & 0x5ebdffi32) by (bit_vector);
}

/// Two sets with the same mask are the same set.
pub proof fn lemma_view_injective(a: Permissions, b: Permissions)
    requires
        a@ == b@,
    ensures
        a == b,
{
}

/// Turning a set into its raw mask and the mask back into a set gives the set
/// again.
pub proof fn lemma_int_round_trip(set: Permissions)
    requires
        set.wf(),
    ensures
        Permissions::of(set@) == set,
        Permissions::of(set@)@ == set@,
{
}

/// Every member of the enumeration stands for a bit.
pub proof fn lemma_all_non_sentinel(i: int)
    requires
        0 <= i < Permission::all().len(),
    ensures
        !Permission::all()[i].is_sentinel(),
{
    let all = Permission::all();
    assert(all.len() == 19);
    if i == 0 {
    } else if i == 1 {
    } else if i == 2 {
    } else if i == 3 {
    } else if i == 4 {
    } else if i == 5 {
    } else if i == 6 {
    } else if i == 7 {
    } else if i == 8 {
    } else if i == 9 {
    } else if i == 10 {
    } else if i == 11 {
    } else if i == 12 {
    } else if i == 13 {
    } else if i == 14 {
    } else if i == 15 {
    } else if i == 16 {
    } else if i == 17 {
    } else {
    }
}

/// The union of the permissions that `n` selects among the first `k` of the
/// enumeration holds the bits that `n` shares with the union of those `k`.
proof fn lemma_union_of_selected(n: i32, k: int)
    requires
        0 <= k <= Permission::all().len(),
    ensures
        Permission::union(Permission::all().take(k).filter(selects(n))) == n & Permission::union(
            Permission::all().take(k),
        ),
    decreases k,
{
    reveal(Seq::filter);
    let all = Permission::all();
    if k == 0 {
        assert(n & 0i32 == 0i32) by (bit_vector);
    } else {
        lemma_union_of_selected(n, k - 1);
        let prev = all.take(k - 1);
        let cur = all.take(k);
        let p = all[k - 1];
        assert(cur.drop_last() =~= prev);
        assert(cur.last() == p);
        lemma_all_non_sentinel(k - 1);
        lemma_one_bit(p);
        let u = Permission::union(prev);
        let m = p.spec_mask();
        let b = p.bit();
        if selects(n)(p) {
            lemma_union_push(prev.filter(selects(n)), p);
            assert(n & (u | m) == (n & u) | m) by (bit_vector)
                requires
                    b < 31,
                    m == 1i32 << b,
                    m & n != 0,
            ;
        } else {
            assert(n & (u | m) == n & u) by (bit_vector)
                requires
                    m & n == 0,
            ;
        }
    }
}

/// Listing the permissions of a set and forming the union of the list gives
/// the mask of the set again.
pub proof fn lemma_list_round_trip(n: i32)
    requires
        within_mask(n),
    ensures
        Permission::union(members(n)) == n,
        Permission::union(members(n)) & MASK_ALL == n,
{
    let all = Permission::all();
    lemma_union_of_selected(n, all.len() as int);
    assert(all.take(all.len() as int) =~= all);
    crate::permission::lemma_mask_all_is_union();
}

} // verus!
