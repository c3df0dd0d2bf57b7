use vkrs::permission::MASK_ALL;
use vkrs::{Permission, Permissions};

#[test]
fn mask_all_is_the_union_of_all_bits() {
    let mut acc = 0;
    for p in Permission::variants() {
        acc |= p.mask();
    }
    assert_eq!(acc, 0x5ebdff);
    assert_eq!(Permission::mask_all(), 0x5ebdff);
    assert_eq!(MASK_ALL, 0x5ebdff);
}

#[test]
fn variants_hold_no_sentinel() {
    let all = Permission::variants();
    assert_eq!(all.len(), 19);
    assert!(!all.contains(&Permission::Offline));
    assert!(!all.contains(&Permission::NoHttps));
    assert_eq!(all[0], Permission::Notify);
    assert_eq!(all[5], Permission::Docs);
    assert_eq!(all[18], Permission::Ads);
}

#[test]
fn sentinels_carry_zero_and_minus_one() {
    assert_eq!(Permission::Offline.mask(), 0);
    assert_eq!(Permission::NoHttps.mask(), -1);
    assert_eq!(Permission::Offline.to_str(), "offline");
    assert_eq!(Permission::NoHttps.to_str(), "nohttps");
}

#[test]
fn masks_have_their_documented_values() {
    assert_eq!(Permission::Notify.mask(), 1);
    assert_eq!(Permission::Friends.mask(), 2);
    assert_eq!(Permission::Photos.mask(), 4);
    assert_eq!(Permission::Audio.mask(), 8);
    assert_eq!(Permission::Video.mask(), 16);
    assert_eq!(Permission::Offers.mask(), 32);
    assert_eq!(Permission::Questions.mask(), 64);
    assert_eq!(Permission::Pages.mask(), 128);
    assert_eq!(Permission::Menu.mask(), 256);
    assert_eq!(Permission::Status.mask(), 1024);
    assert_eq!(Permission::Notes.mask(), 2048);
    assert_eq!(Permission::Messages.mask(), 4096);
    assert_eq!(Permission::Wall.mask(), 8192);
    assert_eq!(Permission::Ads.mask(), 32768);
    assert_eq!(Permission::Docs.mask(), 131072);
    assert_eq!(Permission::Groups.mask(), 262144);
    assert_eq!(Permission::Notifications.mask(), 524288);
    assert_eq!(Permission::Stats.mask(), 1048576);
    assert_eq!(Permission::Email.mask(), 4194304);
}

#[test]
fn every_variant_has_one_bit_of_its_own() {
    let all = Permission::variants();
    for (i, p) in all.iter().enumerate() {
        assert_eq!(p.mask().count_ones(), 1, "{:?}", p);
        assert!(p.mask() > 0);
        for q in &all[i + 1..] {
            assert_eq!(p.mask() & q.mask(), 0, "{:?} and {:?}", p, q);
        }
    }
}

#[test]
fn names_are_lowercase_and_distinct() {
    let all = Permission::variants();
    let names: Vec<&str> = all.iter().map(|p| p.to_str()).collect();
    assert_eq!(
        names,
        vec![
            "notify", "friends", "photos", "audio", "video", "docs", "notes", "pages", "menu",
            "status", "offers", "questions", "wall", "groups", "messages", "email",
            "notifications", "stats", "ads",
        ]
    );
}

#[test]
fn from_int_drops_foreign_bits() {
    assert_eq!(Permissions::from(-1).to_int(), 0x5ebdff);
    assert_eq!(Permissions::from(512).to_int(), 0);
    assert_eq!(Permissions::from(2 | 512 | 8).to_int(), 10);
    assert_eq!(Permissions::from(i32::MIN).to_int(), 0);
    assert_eq!(Permissions::from(0).to_int(), 0);
}

#[test]
fn from_int_round_trips_on_every_subset() {
    let bits: Vec<i32> = Permission::variants().iter().map(|p| p.mask()).collect();
    for pick in 0u32..(1 << 19) {
        let mut mask = 0;
        for (i, bit) in bits.iter().enumerate() {
            if pick & (1 << i) != 0 {
                mask |= bit;
            }
        }
        let set = Permissions::from(mask);
        assert_eq!(set.to_int(), mask);
        assert_eq!(Permissions::from(set.to_int()), set);
    }
}

#[test]
fn list_round_trips_on_every_subset() {
    let bits: Vec<i32> = Permission::variants().iter().map(|p| p.mask()).collect();
    for pick in (0u32..(1 << 19)).step_by(7) {
        let mut mask = 0;
        for (i, bit) in bits.iter().enumerate() {
            if pick & (1 << i) != 0 {
                mask |= bit;
            }
        }
        let set = Permissions::from(mask);
        let list = set.to_vec();
        assert_eq!(list.len() as u32, pick.count_ones());
        assert_eq!(Permissions::from(&list[..]), set);
    }
}

#[test]
fn from_single_permission() {
    assert_eq!(Permissions::from(Permission::Audio).to_int(), 8);
    assert_eq!(Permissions::from(Permission::Email).to_int(), 4194304);
    assert_eq!(Permissions::from(Permission::Offline).to_int(), 0);
    assert_eq!(Permissions::from(Permission::NoHttps).to_int(), 0x5ebdff);
}

#[test]
fn from_list_is_the_union() {
    let set = Permissions::from(&[Permission::Audio, Permission::Video, Permission::Audio][..]);
    assert_eq!(set.to_int(), 24);
    let none: [Permission; 0] = [];
    assert_eq!(Permissions::from(&none[..]).to_int(), 0);
    let all = Permissions::from(Permission::variants());
    assert_eq!(all.to_int(), 0x5ebdff);
}

#[test]
fn from_masks_is_the_union_within_the_mask() {
    assert_eq!(Permissions::from_masks(&[1, 2, 512]).to_int(), 3);
    assert_eq!(Permissions::from_masks(&[]).to_int(), 0);
    assert_eq!(Permissions::from_masks(&[-1]).to_int(), 0x5ebdff);
}

#[test]
fn names_follow_enumeration_order() {
    let set = Permissions::from(&[Permission::Ads, Permission::Notify, Permission::Docs][..]);
    assert_eq!(set.to_string(), "notify,docs,ads");
    assert_eq!(set.names(), vec!["notify", "docs", "ads"]);
    assert_eq!(set.to_vec(), vec![Permission::Notify, Permission::Docs, Permission::Ads]);
    let other = Permissions::from(&[Permission::Docs, Permission::Ads, Permission::Notify][..]);
    assert_eq!(other.to_string(), "notify,docs,ads");
}

#[test]
fn empty_set_has_no_names() {
    let set = Permissions::empty();
    assert!(set.is_empty());
    assert_eq!(set.to_string(), "");
    assert!(set.names().is_empty());
    assert!(set.to_vec().is_empty());
    assert_eq!(Permissions::default(), set);
}

#[test]
fn single_name_has_no_comma() {
    assert_eq!(Permissions::from(Permission::Wall).to_string(), "wall");
}

#[test]
fn full_set_lists_every_name() {
    assert_eq!(
        Permissions::from(-1).to_string(),
        "notify,friends,photos,audio,video,docs,notes,pages,menu,status,offers,questions,wall,\
         groups,messages,email,notifications,stats,ads"
    );
}

#[test]
fn contains_tells_the_bits() {
    let set = Permissions::from(&[Permission::Audio, Permission::Video][..]);
    assert!(set.contains(Permission::Audio));
    assert!(set.contains(Permission::Video));
    assert!(!set.contains(Permission::Wall));
    assert!(!set.contains(Permission::Offline));
    assert!(set.contains(Permission::NoHttps));
    assert!(!Permissions::empty().contains(Permission::NoHttps));
}

#[test]
fn conversions_out_of_a_set() {
    let set = Permissions::from(&[Permission::Video, Permission::Audio][..]);
    let n: i32 = set.into();
    assert_eq!(n, 24);
    let list: Vec<Permission> = set.into();
    assert_eq!(list, vec![Permission::Audio, Permission::Video]);
    let names: Vec<&'static str> = set.into();
    assert_eq!(names, vec!["audio", "video"]);
    let text: String = set.into();
    assert_eq!(text, "audio,video");
}

#[test]
fn union_does_not_depend_on_order() {
    let a = [Permission::Wall, Permission::Audio];
    let b = [Permission::Docs, Permission::Wall, Permission::Offline];
    let ab: Vec<Permission> = a.iter().chain(b.iter()).cloned().collect();
    let ba: Vec<Permission> = b.iter().chain(a.iter()).cloned().collect();
    assert_eq!(Permissions::from(&ab[..]), Permissions::from(&ba[..]));
    assert_eq!(Permissions::from(&ab[..]).to_string(), "audio,docs,wall");
    assert_eq!(Permissions::from(&ba[..]).to_string(), "audio,docs,wall");
}
