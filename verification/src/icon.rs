//! The icon resolver: the configured icon set with its strict priority
//! order, and the gradient occupancy icon used when no set is configured.

use vstd::prelude::*;
use vstd::string::StringExecFns;
use crate::model::{WorkspaceSnapshot, IconSet, opt_view};
use crate::text::{push_char, dec_str, u32_to_string};

verus! {

/// The gradient bucket a window count falls in; counts past the last bucket
/// share it.
pub open spec fn pie_bucket(count: int) -> int {
    if count >= 15 {
        15int
    } else {
        count
    }
}

/// The glyph of a gradient bucket: fill fractions up to the sixth bucket,
/// the full glyph from there on.
pub open spec fn pie_glyph(bucket: int) -> char {
    if bucket == 0 {
        '󰋙'
    } else if bucket == 1 {
        '󰫃'
    } else if bucket == 2 {
        '󰫄'
    } else if bucket == 3 {
        '󰫅'
    } else if bucket == 4 {
        '󰫆'
    } else if bucket == 5 {
        '󰫇'
    } else {
        '󰫈'
    }
}

/// The color of a colored gradient bucket, ascending from the seventh
/// bucket; the last color stands for every count past it.
pub open spec fn pie_color(bucket: int) -> Seq<char> {
    if bucket == 7 {
        "#bf616a"@
    } else if bucket == 8 {
        "#d08770"@
    } else if bucket == 9 {
        "#ebcb8b"@
    } else if bucket == 10 {
        "#a3be8c"@
    } else if bucket == 11 {
        "#81a1c1"@
    } else if bucket == 12 {
        "#b48ead"@
    } else if bucket == 13 {
        "#8b7355"@
    } else if bucket == 14 {
        "#808080"@
    } else {
        "#000000"@
    }
}

/// The full gradient icon markup for a window count: a span, colored from
/// the seventh bucket on, holding the bucket's glyph and a thin space that
/// centers the glyph.
pub open spec fn spec_pie_icon(count: int, size: Option<Seq<char>>) -> Seq<char> {
    let size_attr: Seq<char> = match size {
        Option::None => Seq::empty(),
        Option::Some(s) => " size='"@ + s + "'"@,
    };
    let b = pie_bucket(count);
    let open_tag: Seq<char> = if b <= 6 {
        "<span"@ + size_attr + ">"@
    } else {
        "<span foreground='"@ + pie_color(b) + "'"@ + size_attr + ">"@
    };
    open_tag + seq![pie_glyph(b)] + seq!['\u{2009}'] + "</span>"@
}

fn pie_color_str(bucket: usize) -> (r: &'static str)
    requires
        7 <= bucket <= 15,
    ensures
        r@ == pie_color(bucket as int),
{
    match bucket {
        7 => "#bf616a",
        8 => "#d08770",
        9 => "#ebcb8b",
        10 => "#a3be8c",
        11 => "#81a1c1",
        12 => "#b48ead",
        13 => "#8b7355",
        14 => "#808080",
        _ => "#000000",
    }
}

fn pie_glyph_char(bucket: usize) -> (c: char)
    ensures
        c == pie_glyph(bucket as int),
{
    match bucket {
        0 => '󰋙',
        1 => '󰫃',
        2 => '󰫄',
        3 => '󰫅',
        4 => '󰫆',
        5 => '󰫇',
        _ => '󰫈',
    }
}

/// The gradient indicator for a workspace's window count, with the optional
/// display-size hint passed through into the markup.
pub fn get_pie_icon(count: usize, size: Option<&str>) -> (r: String)
    ensures
        r@ == spec_pie_icon(count as int, opt_view(size)),
{
    let bucket: usize = if count >= 15 {
        15
    } else {
        count
    };
    let mut r: String;
    if bucket <= 6 {
        r = String::from_str("<span");
    } else {
        r = String::from_str("<span foreground='");
        r.append(pie_color_str(bucket));
        r.append("'");
    }
    if let Option::Some(s) = size {
        r.append(" size='");
        r.append(s);
        r.append("'");
    }
    r.append(">");
    push_char(&mut r, pie_glyph_char(bucket));
    push_char(&mut r, '\u{2009}');
    r.append("</span>");
    proof {
        assert(r@ =~= spec_pie_icon(count as int, opt_view(size)));
    }
    r
}

/// The gradient mapping is a fixed table: the empty bucket gets the empty
/// glyph, the six fill fractions get six further distinct glyphs, the
/// colored buckets get pairwise distinct colors in a fixed ascending order,
/// and every count past the last bucket shares the last bucket's icon.
pub proof fn lemma_pie_gradient()
    ensures
        pie_glyph(0) == '󰋙',
        forall|a: int, b: int| 0 <= a < b <= 6 ==> pie_glyph(a) != pie_glyph(b),
        forall|a: int, b: int| 7 <= a < b <= 15 ==> pie_color(a) != pie_color(b),
        forall|c: int, size: Option<Seq<char>>|
            c >= 15 ==> #[trigger] spec_pie_icon(c, size) == spec_pie_icon(15, size),
{
    reveal_strlit("#bf616a");
    reveal_strlit("#d08770");
    reveal_strlit("#ebcb8b");
    reveal_strlit("#a3be8c");
    reveal_strlit("#81a1c1");
    reveal_strlit("#b48ead");
    reveal_strlit("#8b7355");
    reveal_strlit("#808080");
    reveal_strlit("#000000");
    assert forall|a: int, b: int| 7 <= a < b <= 15 implies pie_color(a) != pie_color(b) by {
        assert(pie_color(a)[1] != pie_color(b)[1] || pie_color(a)[2] != pie_color(b)[2]);
    }
}

/// The icon a named lookup yields: the first pair whose key is the sought
/// name. The configuration's keys are unique, so the first match is the
/// match.
pub open spec fn named_lookup(named: Seq<(String, String)>, key: Seq<char>) -> Option<Seq<char>>
    decreases named.len(),
{
    if named.len() == 0 {
        Option::None
    } else if named[0].0@ == key {
        Option::Some(named[0].1@)
    } else {
        named_lookup(named.skip(1), key)
    }
}

fn named_get(named: &Vec<(String, String)>, key: &String) -> (r: Option<String>)
    ensures
        opt_view(r) == named_lookup(named@, key@),
{
    let mut i: usize = 0;
    proof {
        assert(named@.skip(0) =~= named@);
    }
    while i < named.len()
        invariant
            i <= named.len(),
            named_lookup(named@, key@) == named_lookup(named@.skip(i as int), key@),
        decreases named.len() - i,
    {
        let pair = &named[i];
        proof {
            assert(named@.skip(i as int)[0] == named@[i as int]);
            assert(named@.skip(i as int).skip(1) =~= named@.skip(i + 1));
        }
        if pair.0.eq(key) {
            return Option::Some(pair.1.clone());
        }
        i = i + 1;
    }
    proof {
        assert(named@.skip(named@.len() as int) =~= Seq::<(String, String)>::empty());
    }
    Option::None
}

/// The icon the configured set yields for a workspace, in strict priority
/// order: urgent, then empty, then focused, then active, then named by the
/// workspace's name, then named by its decimal index, then the set's
/// default, and finally the display value itself.
pub open spec fn spec_resolve_icon(
    ws: WorkspaceSnapshot,
    icons: IconSet,
    value: Seq<char>,
) -> Seq<char> {
    if ws.is_urgent && icons.urgent is Some {
        icons.urgent.unwrap()@
    } else if ws.active_window_id is None && icons.empty is Some {
        icons.empty.unwrap()@
    } else if ws.is_focused && icons.focused is Some {
        icons.focused.unwrap()@
    } else if ws.is_active && icons.active is Some {
        icons.active.unwrap()@
    } else if ws.name is Some && named_lookup(icons.named@, ws.name.unwrap()@) is Some {
        named_lookup(icons.named@, ws.name.unwrap()@).unwrap()
    } else if named_lookup(icons.named@, dec_str(ws.idx as nat)) is Some {
        named_lookup(icons.named@, dec_str(ws.idx as nat)).unwrap()
    } else if icons.default_icon is Some {
        icons.default_icon.unwrap()@
    } else {
        value
    }
}

/// Resolves a workspace's icon from the configured set; without a set, the
/// display value itself stands in for the icon.
pub fn get_format_icon(ws: &WorkspaceSnapshot, format_icons: Option<&IconSet>, value: &String) -> (r:
    String)
    ensures
        r@ == match format_icons {
            Option::Some(icons) => spec_resolve_icon(*ws, *icons, value@),
            Option::None => value@,
        },
{
    if let Option::Some(icons) = format_icons {
        if ws.is_urgent {
            if let Option::Some(icon) = &icons.urgent {
                return icon.clone();
            }
        }
        if ws.active_window_id.is_none() {
            if let Option::Some(icon) = &icons.empty {
                return icon.clone();
            }
        }
        if ws.is_focused {
            if let Option::Some(icon) = &icons.focused {
                return icon.clone();
            }
        }
        if ws.is_active {
            if let Option::Some(icon) = &icons.active {
                return icon.clone();
            }
        }
        if let Option::Some(name) = &ws.name {
            if let Option::Some(icon) = named_get(&icons.named, name) {
                return icon;
            }
        }
        let idx_str = u32_to_string(ws.idx);
        if let Option::Some(icon) = named_get(&icons.named, &idx_str) {
            return icon;
        }
        if let Option::Some(icon) = &icons.default_icon {
            return icon.clone();
        }
        value.clone()
    } else {
        value.clone()
    }
}

} // verus!
