//! Helpers behind the configuration surface: the udev rule that grants
//! access to the device, the name a saved icon gets, and which files the
//! icon listing shows.

use vstd::prelude::*;
use crate::strutil::{ends_with, has_suffix, u64_to_string, spec_dec_str};

verus! {

/// The udev rule text that opens the device to unprivileged users.
pub fn udev_rules_content() -> (r: &'static str)
    ensures
        r@ == "SUBSYSTEM==\"usb\", ATTR{idVendor}==\"0200\", ATTR{idProduct}==\"1000\", MODE=\"0666\""@,
{
    "SUBSYSTEM==\"usb\", ATTR{idVendor}==\"0200\", ATTR{idProduct}==\"1000\", MODE=\"0666\""
}

/// Where the udev rule lives.
pub fn udev_rules_path() -> (r: &'static str)
    ensures
        r@ == "/etc/udev/rules.d/99-redragon.rules"@,
{
    "/etc/udev/rules.d/99-redragon.rules"
}

/// The name a saved icon gets: the given name, or `custom_<epoch>.png`
/// when none was given.
pub open spec fn spec_icon_file_name(icon_name: Seq<char>, now: u64) -> Seq<char> {
    if icon_name.len() == 0 {
        "custom_"@ + spec_dec_str(now as nat) + ".png"@
    } else {
        icon_name
    }
}

/// Names a saved icon: the given name, or a fresh `custom_<epoch>.png`.
pub fn icon_file_name(icon_name: String, now: u64) -> (r: String)
    ensures
        r@ == spec_icon_file_name(icon_name@, now),
{
    if icon_name.unicode_len() == 0 {
        let mut s = String::from_str("custom_");
        s.append(u64_to_string(now).as_str());
        s.append(".png");
        proof {
            assert(s@ =~= spec_icon_file_name(icon_name@, now));
        }
        s
    } else {
        icon_name
    }
}

/// A file the icon listing shows: PNG, JPEG, GIF or WebP by extension.
pub open spec fn spec_is_listable_icon(name: Seq<char>) -> bool {
    ||| has_suffix(name, ".png"@)
    ||| has_suffix(name, ".jpg"@)
    ||| has_suffix(name, ".jpeg"@)
    ||| has_suffix(name, ".gif"@)
    ||| has_suffix(name, ".webp"@)
}

/// Decides whether the icon listing shows a file of this name.
pub fn is_listable_icon(name: &str) -> (r: bool)
    ensures
        r == spec_is_listable_icon(name@),
{
    ends_with(name, ".png") || ends_with(name, ".jpg") || ends_with(name, ".jpeg") || ends_with(
        name,
        ".gif",
    ) || ends_with(name, ".webp")
}

/// Keeps the listable icons of a directory listing, in the given order.
pub fn filter_icon_names(names: Vec<String>) -> (r: Vec<String>)
    ensures
        r@.map_values(|s: String| s@) == names@.map_values(|s: String| s@).filter(
            |s: Seq<char>| spec_is_listable_icon(s),
        ),
{
    let mut r: Vec<String> = Vec::new();
    let mut i: usize = 0;
    proof {
        assert(names@.map_values(|s: String| s@).subrange(0, 0) =~= Seq::<Seq<char>>::empty());
        assert(Seq::<Seq<char>>::empty().filter(|s: Seq<char>| spec_is_listable_icon(s))
            =~= Seq::<Seq<char>>::empty());
        assert(r@.map_values(|s: String| s@) =~= Seq::<Seq<char>>::empty());
    }
    while i < names.len()
        invariant
            i <= names@.len(),
            r@.map_values(|s: String| s@) == names@.map_values(|s: String| s@).subrange(
                0,
                i as int,
            ).filter(|s: Seq<char>| spec_is_listable_icon(s)),
        decreases names@.len() - i,
    {
        let ghost all = names@.map_values(|s: String| s@);
        proof {
            assert(all.subrange(0, i + 1).drop_last() =~= all.subrange(0, i as int));
            assert(all.subrange(0, i + 1).last() == names@[i as int]@);
            reveal_with_fuel(Seq::filter, 2);
        }
        if is_listable_icon(names[i].as_str()) {
            let item = names[i].clone();
            r.push(item);
            proof {
                assert(r@.map_values(|s: String| s@) =~= all.subrange(0, i + 1).filter(
                    |s: Seq<char>| spec_is_listable_icon(s),
                ));
            }
        } else {
            proof {
                assert(r@.map_values(|s: String| s@) =~= all.subrange(0, i + 1).filter(
                    |s: Seq<char>| spec_is_listable_icon(s),
                ));
            }
        }
        i += 1;
    }
    proof {
        assert(names@.map_values(|s: String| s@).subrange(0, names@.len() as int) =~= names@.map_values(
            |s: String| s@,
        ));
    }
    r
}

} // verus!
