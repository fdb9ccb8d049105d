//! The decisions of the color picker dialog: which picked colors it
//! remembers as custom swatches, and which color a typed hex code gives.
use vstd::prelude::*;
use crate::id_list::strings_view;
use crate::lines::{contains_line, push_line};
use crate::text::{all_hex, append_str, chars_of, is_hex, str_eq, strip_prefix, trim, utf8_len, utf8_len_capped};
use crate::ui::color_control::lemma_trim_clean_ends;
use crate::value::color::functional_body;
use crate::ui::structured_text::capped;
use crate::ux_presentation::swatch::{color_swatch, hex_pair};
use crate::ux_presentation::{parse_hyprland_color, ParsedColor};

verus! {

/// At most this many custom colors are remembered.
pub const MAX_CUSTOM_COLORS: usize = 8;

/// `items` without the entries equal to `t`, in order.
pub open spec fn without(items: Seq<Seq<char>>, t: Seq<char>) -> Seq<Seq<char>>
    decreases items.len(),
{
    if items.len() == 0 {
        seq![]
    } else {
        without(items.drop_last(), t) + if items.last() == t {
            seq![]
        } else {
            seq![items.last()]
        }
    }
}

/// The custom colors after picking `token`: a palette color leaves them
/// unchanged; any other color moves to the front, once, and only the first
/// `MAX_CUSTOM_COLORS` are kept.
pub open spec fn remembered(store: Seq<Seq<char>>, token: Seq<char>, palette: Seq<Seq<char>>) -> Seq<
    Seq<char>,
> {
    if palette.contains(token) {
        store
    } else {
        capped(seq![token] + without(store, token), MAX_CUSTOM_COLORS as nat)
    }
}

/// `palette_tokens` are the tokens of the palette colors.
pub fn remember_custom_color(store: &Vec<String>, chosen_token: &str, palette_tokens: &Vec<String>) -> (r:
    Vec<String>)
    ensures
        strings_view(r@) == remembered(strings_view(store@), chosen_token@, strings_view(palette_tokens@)),
{
    let mut out: Vec<String> = Vec::new();
    if contains_line(palette_tokens, chosen_token) {
        let mut i: usize = 0;
        while i < store.len()
            invariant
                i <= store@.len(),
                strings_view(out@) == strings_view(store@).take(i as int),
            decreases store@.len() - i,
        {
            push_line(&mut out, store[i].as_str());
            assert(strings_view(store@).take(i + 1) =~= strings_view(store@).take(i as int).push(
                store@[i as int]@,
            ));
            i = i + 1;
        }
        assert(strings_view(store@).take(i as int) =~= strings_view(store@));
        return out;
    }
    push_line(&mut out, chosen_token);
    let ghost all = strings_view(store@);
    let mut i: usize = 0;
    while i < store.len()
        invariant
            i <= store@.len(),
            all == strings_view(store@),
            strings_view(out@) == capped(
                seq![chosen_token@] + without(all.take(i as int), chosen_token@),
                MAX_CUSTOM_COLORS as nat,
            ),
        decreases store@.len() - i,
    {
        let ghost prev = seq![chosen_token@] + without(all.take(i as int), chosen_token@);
        assert(all.take(i + 1).drop_last() =~= all.take(i as int));
        assert(all.take(i + 1).last() == store@[i as int]@);
        if !str_eq(store[i].as_str(), chosen_token) {
            assert(seq![chosen_token@] + without(all.take(i + 1), chosen_token@) =~= prev.push(
                store@[i as int]@,
            ));
            if out.len() < MAX_CUSTOM_COLORS {
                push_line(&mut out, store[i].as_str());
            } else {
                assert(prev.push(store@[i as int]@).take(MAX_CUSTOM_COLORS as int) =~= prev.take(
                    MAX_CUSTOM_COLORS as int,
                ));
            }
        } else {
            assert(seq![chosen_token@] + without(all.take(i + 1), chosen_token@) =~= prev);
        }
        i = i + 1;
    }
    assert(all.take(i as int) =~= all);
    out
}

proof fn lemma_without(items: Seq<Seq<char>>, t: Seq<char>)
    ensures
        forall|x: Seq<char>| #[trigger] without(items, t).contains(x) <==> (items.contains(x) && x != t),
        items.no_duplicates() ==> without(items, t).no_duplicates(),
    decreases items.len(),
{
    if items.len() > 0 {
        let front = items.drop_last();
        let w = without(front, t);
        lemma_without(front, t);
        let last = items.last();
        assert forall|x: Seq<char>| #[trigger] items.contains(x) <==> (front.contains(x) || x == last) by {
            if items.contains(x) {
                let j = choose|j: int| 0 <= j < items.len() && items[j] == x;
                if j < items.len() - 1 {
                    assert(front[j] == x);
                }
            }
            if front.contains(x) {
                let j = choose|j: int| 0 <= j < front.len() && front[j] == x;
                assert(items[j] == x);
            }
            if x == last {
                assert(items[items.len() - 1] == x);
            }
        }
        if last == t {
            assert(without(items, t) =~= w);
        } else {
            let e = w.push(last);
            assert(without(items, t) =~= e);
            assert forall|x: Seq<char>| #[trigger] e.contains(x) <==> (w.contains(x) || x == last) by {
                if e.contains(x) {
                    let j = choose|j: int| 0 <= j < e.len() && e[j] == x;
                    if j < w.len() {
                        assert(w[j] == x);
                    }
                }
                if w.contains(x) {
                    let j = choose|j: int| 0 <= j < w.len() && w[j] == x;
                    assert(e[j] == x);
                }
                if x == last {
                    assert(e[e.len() - 1] == x);
                }
            }
            if items.no_duplicates() {
                assert(front.no_duplicates()) by {
                    assert forall|i: int, j: int| 0 <= i < front.len() && 0 <= j < front.len() && i != j implies front[i] != front[j] by {
                        assert(front[i] == items[i] && front[j] == items[j]);
                    }
                }
                assert(!front.contains(last)) by {
                    if front.contains(last) {
                        let j = choose|j: int| 0 <= j < front.len() && front[j] == last;
                        assert(items[j] == items[items.len() - 1]);
                    }
                }
                assert forall|i: int, j: int| 0 <= i < e.len() && 0 <= j < e.len() && i != j implies e[i] != e[j] by {
                    if i < w.len() && j < w.len() {
                        assert(e[i] == w[i] && e[j] == w[j]);
                    } else if i < w.len() {
                        assert(e[i] == w[i] && w.contains(w[i]));
                    } else if j < w.len() {
                        assert(e[j] == w[j] && w.contains(w[j]));
                    }
                }
            }
        }
    }
}

/// Picking a color that is not in the palette puts it first among the
/// custom colors, once; at most `MAX_CUSTOM_COLORS` are kept, every one of
/// them was picked or remembered before, and a list without repeats stays
/// without repeats.
pub proof fn law_picked_color_first_and_once(store: Seq<Seq<char>>, token: Seq<char>, palette: Seq<Seq<char>>)
    requires
        !palette.contains(token),
    ensures
        ({
            let r = remembered(store, token, palette);
            &&& r.len() >= 1 && r[0] == token
            &&& r.len() <= MAX_CUSTOM_COLORS
            &&& forall|j: int| 1 <= j < r.len() ==> r[j] != token && store.contains(#[trigger] r[j])
            &&& store.no_duplicates() ==> r.no_duplicates()
        }),
{
    lemma_without(store, token);
    let w = without(store, token);
    let full = seq![token] + w;
    let r = remembered(store, token, palette);
    assert forall|j: int| 1 <= j < r.len() implies r[j] != token && store.contains(#[trigger] r[j]) by {
        assert(r[j] == full[j]);
        assert(full[j] == w[j - 1]);
        assert(w.contains(w[j - 1]));
    }
    if store.no_duplicates() {
        assert forall|i: int, j: int| 0 <= i < r.len() && 0 <= j < r.len() && i != j implies r[i] != r[j] by {
            assert(r[i] == full[i] && r[j] == full[j]);
            if i > 0 {
                assert(full[i] == w[i - 1] && w.contains(w[i - 1]));
            }
            if j > 0 {
                assert(full[j] == w[j - 1] && w.contains(w[j - 1]));
            }
        }
    }
}

/// Whatever color is picked, custom colors without repeats and at most
/// `MAX_CUSTOM_COLORS` long stay so: a palette color leaves them as they
/// are, any other color goes first, once, ahead of the others in their
/// order, and the list is cut to `MAX_CUSTOM_COLORS`.
pub proof fn law_remembered_stays_small_and_distinct(
    store: Seq<Seq<char>>,
    token: Seq<char>,
    palette: Seq<Seq<char>>,
)
    requires
        store.no_duplicates(),
        store.len() <= MAX_CUSTOM_COLORS,
    ensures
        ({
            let r = remembered(store, token, palette);
            &&& palette.contains(token) ==> r == store
            &&& !palette.contains(token) ==> r == capped(
                seq![token] + without(store, token),
                MAX_CUSTOM_COLORS as nat,
            )
            &&& !palette.contains(token) ==> r[0] == token
            &&& r.no_duplicates()
            &&& r.len() <= MAX_CUSTOM_COLORS
        }),
{
    if !palette.contains(token) {
        law_picked_color_first_and_once(store, token, palette);
    }
}

/// Opaque white, the color the picker starts from when the token is not a
/// color it can decode.
pub open spec fn opaque_white() -> ParsedColor {
    ParsedColor { red: 0xff, green: 0xff, blue: 0xff, alpha: 0xff }
}

/// The color the picker starts from for the token `token`.
pub fn picker_initial_color(token: &str) -> (r: ParsedColor)
    ensures
        r == match color_swatch(token@) {
            Some(c) => c,
            None => opaque_white(),
        },
{
    match parse_hyprland_color(token) {
        Some(c) => c,
        None => ParsedColor { red: 0xff, green: 0xff, blue: 0xff, alpha: 0xff },
    }
}

/// The color a typed hex code gives: six digits are an opaque `rgb`
/// color, eight an `rgba` color; text of any other length (in UTF-8 bytes)
/// gives none.
pub open spec fn hex_entry(text: Seq<char>) -> Option<ParsedColor> {
    if utf8_len(text) == 6 {
        color_swatch("rgb("@ + text + ")"@)
    } else if utf8_len(text) == 8 {
        color_swatch("rgba("@ + text + ")"@)
    } else {
        None
    }
}

pub fn hex_entry_color(text: &str) -> (r: Option<ParsedColor>)
    ensures
        r == hex_entry(text@),
{
    let v = chars_of(text);
    assert(v@.subrange(0, v@.len() as int) =~= text@);
    let len = utf8_len_capped(&v, 0, v.len(), 9);
    if len == 6 {
        let mut s = "rgb(".to_string();
        append_str(&mut s, text);
        append_str(&mut s, ")");
        parse_hyprland_color(s.as_str())
    } else if len == 8 {
        let mut s = "rgba(".to_string();
        append_str(&mut s, text);
        append_str(&mut s, ")");
        parse_hyprland_color(s.as_str())
    } else {
        None
    }
}

/// The color the picker holds after its hex field is edited to `text`: the
/// color the text gives, or else the color it held before.
pub open spec fn after_hex_entry(chosen: ParsedColor, text: Seq<char>) -> ParsedColor {
    match hex_entry(text) {
        Some(c) => c,
        None => chosen,
    }
}

pub fn picker_color_after_hex_entry(chosen: ParsedColor, text: &str) -> (r: ParsedColor)
    ensures
        r == after_hex_entry(chosen, text@),
{
    match hex_entry_color(text) {
        Some(c) => c,
        None => chosen,
    }
}

/// Hex digits are one byte each in UTF-8.
proof fn lemma_hex_utf8_len(s: Seq<char>)
    requires
        all_hex(s),
    ensures
        utf8_len(s) == s.len(),
    decreases s.len(),
{
    if s.len() > 0 {
        assert(is_hex(s[s.len() - 1]));
        assert(all_hex(s.drop_last())) by {
            assert forall|i: int| 0 <= i < s.drop_last().len() implies #[trigger] is_hex(
                s.drop_last()[i],
            ) by {
                assert(s.drop_last()[i] == s[i]);
            }
        }
        lemma_hex_utf8_len(s.drop_last());
    }
}

/// `p` followed by the hex digits `h` and `)` is a functional form whose
/// body is `h`, and no other of the two forms.
proof fn lemma_hex_body(p: Seq<char>, h: Seq<char>)
    requires
        p == "rgb("@ || p == "rgba("@,
        h.len() > 0,
        all_hex(h),
    ensures
        trim("rgb("@ + h + ")"@) == "rgb("@ + h + ")"@,
        trim("rgba("@ + h + ")"@) == "rgba("@ + h + ")"@,
        trim(h) == h,
        functional_body(p + h + ")"@, p) == Some(h),
        (strip_prefix("rgb("@ + h + ")"@, "rgba("@) is None),
{
    reveal_strlit("rgba(");
    reveal_strlit("rgb(");
    reveal_strlit(")");
    assert(is_hex(h[0]) && is_hex(h[h.len() - 1]));
    let t = p + h + ")"@;
    assert(t[0] == 'r' && t[t.len() - 1] == ')');
    let t3 = "rgb("@ + h + ")"@;
    let t4 = "rgba("@ + h + ")"@;
    assert(t3[0] == 'r' && t3[t3.len() - 1] == ')');
    assert(t4[0] == 'r' && t4[t4.len() - 1] == ')');
    lemma_trim_clean_ends(t3);
    lemma_trim_clean_ends(t4);
    lemma_trim_clean_ends(h);
    assert(t.subrange(0, p.len() as int) =~= p);
    let rest = t.subrange(p.len() as int, t.len() as int);
    assert(rest.subrange(rest.len() - 1, rest.len() as int) =~= ")"@);
    assert(rest.subrange(0, rest.len() - 1) =~= h);
    assert(strip_prefix(t3, "rgba("@) is None) by {
        if strip_prefix(t3, "rgba("@) is Some {
            assert(t3.subrange(0, 5)[3] == t3[3]);
        }
    }
}

/// What a hex field edit does to the picked color: six hex digits give
/// that opaque color, eight give that color with its alpha, and text of
/// any other length leaves the picked color as it was.
pub proof fn law_hex_entry_edit(chosen: ParsedColor, text: Seq<char>)
    ensures
        text.len() == 6 && all_hex(text) ==> after_hex_entry(chosen, text) == (ParsedColor {
            red: hex_pair(text, 0),
            green: hex_pair(text, 2),
            blue: hex_pair(text, 4),
            alpha: 255,
        }),
        text.len() == 8 && all_hex(text) ==> after_hex_entry(chosen, text) == (ParsedColor {
            red: hex_pair(text, 0),
            green: hex_pair(text, 2),
            blue: hex_pair(text, 4),
            alpha: hex_pair(text, 6),
        }),
        utf8_len(text) != 6 && utf8_len(text) != 8 ==> after_hex_entry(chosen, text) == chosen,
{
    if (text.len() == 6 || text.len() == 8) && all_hex(text) {
        lemma_hex_utf8_len(text);
        if text.len() == 6 {
            lemma_hex_body("rgb("@, text);
        } else {
            lemma_hex_body("rgba("@, text);
        }
    }
}

} // verus!
