//! The scopes an access token can grant, one bit each.

use vstd::prelude::*;

verus! {

/// A scope that can be requested from the provider.
///
/// Every variant but the last two stands for one bit of a scope mask.
/// `Offline` and `NoHttps` are sentinels: they carry the values 0 and -1 and
/// are not part of [`Permission::variants`].
#[derive(Debug, PartialEq, Eq, Clone, Copy, Structural)]
pub enum Permission {
    Notify,
    Friends,
    Photos,
    Audio,
    Video,
    Docs,
    Notes,
    Pages,
    Menu,
    Status,
    Offers,
    Questions,
    Wall,
    Groups,
    Messages,
    Email,
    Notifications,
    Stats,
    Ads,
    Offline,
    NoHttps,
}

/// The union of the bits of all non-sentinel permissions.
pub const MASK_ALL: i32 = 0x5ebdff;

impl Permission {
    /// The non-sentinel permissions in their fixed enumeration order.
    pub open spec fn all() -> Seq<Permission> {
        seq![
            Permission::Notify,
            Permission::Friends,
            Permission::Photos,
            Permission::Audio,
            Permission::Video,
            Permission::Docs,
            Permission::Notes,
            Permission::Pages,
            Permission::Menu,
            Permission::Status,
            Permission::Offers,
            Permission::Questions,
            Permission::Wall,
            Permission::Groups,
            Permission::Messages,
            Permission::Email,
            Permission::Notifications,
            Permission::Stats,
            Permission::Ads,
        ]
    }

    /// Whether this is one of the two values that stand for no bit.
    pub open spec fn is_sentinel(self) -> bool {
        self == Permission::Offline || self == Permission::NoHttps
    }

    /// The integer value of a permission.
    pub open spec fn spec_mask(&self) -> i32 {
        match *self {
            Permission::Notify => 1,
            Permission::Friends => 2,
            Permission::Photos => 4,
            Permission::Audio => 8,
            Permission::Video => 16,
            Permission::Docs => 131072,
            Permission::Notes => 2048,
            Permission::Pages => 128,
            Permission::Menu => 256,
            Permission::Status => 1024,
            Permission::Offers => 32,
            Permission::Questions => 64,
            Permission::Wall => 8192,
            Permission::Groups => 262144,
            Permission::Messages => 4096,
            Permission::Email => 4194304,
            Permission::Notifications => 524288,
            Permission::Stats => 1048576,
            Permission::Ads => 32768,
            Permission::Offline => 0,
            Permission::NoHttps => -1i32,
        }
    }

    /// The position of the one bit of a non-sentinel permission.
    pub open spec fn bit(self) -> u32 {
        match self {
            Permission::Notify => 0,
            Permission::Friends => 1,
            Permission::Photos => 2,
            Permission::Audio => 3,
            Permission::Video => 4,
            Permission::Docs => 17,
            Permission::Notes => 11,
            Permission::Pages => 7,
            Permission::Menu => 8,
            Permission::Status => 10,
            Permission::Offers => 5,
            Permission::Questions => 6,
            Permission::Wall => 13,
            Permission::Groups => 18,
            Permission::Messages => 12,
            Permission::Email => 22,
            Permission::Notifications => 19,
            Permission::Stats => 20,
            Permission::Ads => 15,
            Permission::Offline => 0,
            Permission::NoHttps => 0,
        }
    }

    /// The bitwise OR of the values of a sequence of permissions.
    pub open spec fn union(list: Seq<Permission>) -> i32
        decreases list.len(),
    {
        if list.len() == 0 {
            0
        } else {
            Permission::union(list.drop_last()) | list.last().spec_mask()
        }
    }

    /// The canonical lowercase name of a permission.
    pub open spec fn name(self) -> Seq<char> {
        match self {
            Permission::Notify => "notify"@,
            Permission::Friends => "friends"@,
            Permission::Photos => "photos"@,
            Permission::Audio => "audio"@,
            Permission::Video => "video"@,
            Permission::Docs => "docs"@,
            Permission::Notes => "notes"@,
            Permission::Pages => "pages"@,
            Permission::Menu => "menu"@,
            Permission::Status => "status"@,
            Permission::Offers => "offers"@,
            Permission::Questions => "questions"@,
            Permission::Wall => "wall"@,
            Permission::Groups => "groups"@,
            Permission::Messages => "messages"@,
            Permission::Email => "email"@,
            Permission::Notifications => "notifications"@,
            Permission::Stats => "stats"@,
            Permission::Ads => "ads"@,
            Permission::Offline => "offline"@,
            Permission::NoHttps => "nohttps"@,
        }
    }

    /// The non-sentinel permissions in their fixed enumeration order.
    pub fn variants() -> (list: &'static [Permission])
        ensures
            list@ == Permission::all(),
    {
        let list: &'static [Permission] = &[
            Permission::Notify,
            Permission::Friends,
            Permission::Photos,
            Permission::Audio,
            Permission::Video,
            Permission::Docs,
            Permission::Notes,
            Permission::Pages,
            Permission::Menu,
            Permission::Status,
            Permission::Offers,
            Permission::Questions,
            Permission::Wall,
            Permission::Groups,
            Permission::Messages,
            Permission::Email,
            Permission::Notifications,
            Permission::Stats,
            Permission::Ads,
        ];
        list
    }

    /// The integer value of this permission: its bit, or 0 or -1 for a sentinel.
    #[verifier::when_used_as_spec(spec_mask)]
    pub fn mask(&self) -> (m: i32)
        ensures
            m == self.spec_mask(),
    {
        match self {
            Permission::Notify => 1,
            Permission::Friends => 2,
            Permission::Photos => 4,
            Permission::Audio => 8,
            Permission::Video => 16,
            Permission::Docs => 131072,
            Permission::Notes => 2048,
            Permission::Pages => 128,
            Permission::Menu => 256,
            Permission::Status => 1024,
            Permission::Offers => 32,
            Permission::Questions => 64,
            Permission::Wall => 8192,
            Permission::Groups => 262144,
            Permission::Messages => 4096,
            Permission::Email => 4194304,
            Permission::Notifications => 524288,
            Permission::Stats => 1048576,
            Permission::Ads => 32768,
            Permission::Offline => 0,
            Permission::NoHttps => -1,
        }
    }

    /// The mask in which every non-sentinel permission is set.
    pub fn mask_all() -> (m: i32)
        ensures
            m == MASK_ALL,
    {
        MASK_ALL
    }

    /// The canonical lowercase name of this permission.
    pub fn to_str(&self) -> (s: &'static str)
        ensures
            s@ == self.name(),
    {
        match self {
            Permission::Notify => "notify",
            Permission::Friends => "friends",
            Permission::Photos => "photos",
            Permission::Audio => "audio",
            Permission::Video => "video",
            Permission::Docs => "docs",
            Permission::Notes => "notes",
            Permission::Pages => "pages",
            Permission::Menu => "menu",
            Permission::Status => "status",
            Permission::Offers => "offers",
            Permission::Questions => "questions",
            Permission::Wall => "wall",
            Permission::Groups => "groups",
            Permission::Messages => "messages",
            Permission::Email => "email",
            Permission::Notifications => "notifications",
            Permission::Stats => "stats",
            Permission::Ads => "ads",
            Permission::Offline => "offline",
            Permission::NoHttps => "nohttps",
        }
    }
}

/// Appending a permission to a sequence ORs its value into the union.
pub proof fn lemma_union_push(list: Seq<Permission>, p: Permission)
    ensures
        Permission::union(list.push(p)) == Permission::union(list) | p.mask(),
{
    assert(list.push(p).drop_last() =~= list);
}

/// The union of two lists joined is the OR of their unions.
pub proof fn lemma_union_append(a: Seq<Permission>, b: Seq<Permission>)
    ensures
        Permission::union(a + b) == Permission::union(a) | Permission::union(b),
    decreases b.len(),
{
    let ua = Permission::union(a);
    if b.len() == 0 {
        assert(a + b =~= a);
        assert(ua | 0i32 == ua) by (bit_vector);
    } else {
        let rest = b.drop_last();
        let m = b.last().spec_mask();
        let ur = Permission::union(rest);
        lemma_union_append(a, rest);
        assert((a + b).drop_last() =~= a + rest);
        assert((ua | ur) | m == ua | (ur | m)) by (bit_vector);
    }
}

/// The union of a list does not depend on the order in which its parts are
/// joined.
pub proof fn lemma_union_commutes(a: Seq<Permission>, b: Seq<Permission>)
    ensures
        Permission::union(a + b) == Permission::union(b + a),
{
    lemma_union_append(a, b);
    lemma_union_append(b, a);
    let ua = Permission::union(a);
    let ub = Permission::union(b);
    assert(ua | ub == ub | ua) by (bit_vector);
}

/// A non-sentinel permission has exactly one bit set: its value is 1 shifted
/// to its position. That bit lies within the mask of all permissions.
pub proof fn lemma_one_bit(p: Permission)
    requires
        !p.is_sentinel(),
    ensures
        p.bit() < 31,
        p.mask() == 1i32 << p.bit(),
        p.mask() & MASK_ALL == p.mask(),
{
    assert(1i32 << 0u32 == 1 && 1i32 << 1u32 == 2 && 1i32 << 2u32 == 4 && 1i32 << 3u32 == 8
        && 1i32 << 4u32 == 16 && 1i32 << 5u32 == 32 && 1i32 << 6u32 == 64 && 1i32 << 7u32 == 128
        && 1i32 << 8u32 == 256 && 1i32 << 10u32 == 1024 && 1i32 << 11u32 == 2048 && 1i32
        << 12u32 == 4096 && 1i32 << 13u32 == 8192 && 1i32 << 15u32 == 32768 && 1i32 << 17u32
        == 131072 && 1i32 << 18u32 == 262144 && 1i32 << 19u32 == 524288 && 1i32 << 20u32
        == 1048576 && 1i32 << 22u32 == 4194304) by (bit_vector);
    let m = p.mask();
    assert((m == 1 || m == 2 || m == 4 || m == 8 || m == 16 || m == 32 || m == 64 || m == 128
        || m == 256 || m == 1024 || m == 2048 || m == 4096 || m == 8192 || m == 32768 || m
        == 131072 || m == 262144 || m == 524288 || m == 1048576 || m == 4194304) ==> m
        & 0x5ebdffi32 == m) by (bit_vector);
}

/// Two distinct non-sentinel permissions sit at different positions and share
/// no bit.
pub proof fn lemma_bits_distinct(p: Permission, q: Permission)
    requires
        !p.is_sentinel(),
        !q.is_sentinel(),
        p != q,
    ensures
        p.bit() != q.bit(),
        p.mask() & q.mask() == 0,
{
    lemma_one_bit(p);
    lemma_one_bit(q);
    let i = p.bit();
    let j = q.bit();
    assert(i < 31 && j < 31 && i != j ==> (1i32 << i) & (1i32 << j) == 0) by (bit_vector);
}

/// The mask of all permissions is the union of the values of the non-sentinel
/// permissions.
pub proof fn lemma_mask_all_is_union()
    ensures
        Permission::union(Permission::all()) == MASK_ALL,
{
    let e = Seq::<Permission>::empty();
    let s1 = e.push(Permission::Notify);
    let s2 = s1.push(Permission::Friends);
    let s3 = s2.push(Permission::Photos);
    let s4 = s3.push(Permission::Audio);
    let s5 = s4.push(Permission::Video);
    let s6 = s5.push(Permission::Docs);
    let s7 = s6.push(Permission::Notes);
    let s8 = s7.push(Permission::Pages);
    let s9 = s8.push(Permission::Menu);
    let s10 = s9.push(Permission::Status);
    let s11 = s10.push(Permission::Offers);
    let s12 = s11.push(Permission::Questions);
    let s13 = s12.push(Permission::Wall);
    let s14 = s13.push(Permission::Groups);
    let s15 = s14.push(Permission::Messages);
    let s16 = s15.push(Permission::Email);
    let s17 = s16.push(Permission::Notifications);
    let s18 = s17.push(Permission::Stats);
    let s19 = s18.push(Permission::Ads);
    lemma_union_push(e, Permission::Notify);
    lemma_union_push(s1, Permission::Friends);
    lemma_union_push(s2, Permission::Photos);
    lemma_union_push(s3, Permission::Audio);
    lemma_union_push(s4, Permission::Video);
    lemma_union_push(s5, Permission::Docs);
    lemma_union_push(s6, Permission::Notes);
    lemma_union_push(s7, Permission::Pages);
    lemma_union_push(s8, Permission::Menu);
    lemma_union_push(s9, Permission::Status);
    lemma_union_push(s10, Permission::Offers);
    lemma_union_push(s11, Permission::Questions);
    lemma_union_push(s12, Permission::Wall);
    lemma_union_push(s13, Permission::Groups);
    lemma_union_push(s14, Permission::Messages);
    lemma_union_push(s15, Permission::Email);
    lemma_union_push(s16, Permission::Notifications);
    lemma_union_push(s17, Permission::Stats);
    lemma_union_push(s18, Permission::Ads);
    assert(s19 =~= Permission::all());
    assert(0i32 | 1 | 2 | 4 | 8 | 16 | 131072 | 2048 | 128 | 256 | 1024 | 32 | 64 | 8192 | 262144
        | 4096 | 4194304 | 524288 | 1048576 | 32768 == 0x5ebdffi32) by (bit_vector);
}

} // verus!
