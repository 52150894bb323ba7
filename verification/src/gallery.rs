//! The gallery's own rules: item ids, the files that make up an item, which
//! directory entries are items, and the newest-first order.
use vstd::prelude::*;
use crate::inputs::rgb_result;
use crate::models::{extension_of, file_extension, file_name, file_name_of, opt_seq};
use crate::text::{
    chars_of, decimal, positions_in, positions_of, push_decimal, push_str, push_zero_padded,
    str_eq, string_of_range, zero_padded,
};

verus! {

// ---------------------------------------------------------------------------
// Ids and files
// ---------------------------------------------------------------------------

/// The random part of an item id, from a hash value: below one million.
pub fn suffix_of_hash(h: u64) -> (s: u32)
    ensures
        s == h % 1_000_000,
        s < 1_000_000,
{
    (h % 1_000_000) as u32
}

/// The id of an item saved at `millis` ms since the epoch with a random
/// `suffix`: the milliseconds, an underscore, and the suffix padded to six
/// digits.
pub fn gallery_item_id(millis: u64, suffix: u32) -> (id: String)
    ensures
        id@ == decimal(millis as nat) + "_"@ + zero_padded(suffix as nat, 6),
{
    let mut id = String::new();
    push_decimal(&mut id, millis);
    push_str(&mut id, "_");
    push_zero_padded(&mut id, suffix as u64, 6);
    id
}

/// `id` followed by `suffix`.
fn with_suffix(id: &str, suffix: &str) -> (s: String)
    ensures
        s@ == id@ + suffix@,
{
    let mut s = String::from_str(id);
    push_str(&mut s, suffix);
    s
}

/// The file names of an item: the image, its metadata, its thumbnail.
pub fn gallery_file_names(id: &str) -> (names: (String, String, String))
    ensures
        names.0@ == id@ + ".png"@,
        names.1@ == id@ + ".json"@,
        names.2@ == id@ + "_thumb.jpg"@,
{
    (with_suffix(id, ".png"), with_suffix(id, ".json"), with_suffix(id, "_thumb.jpg"))
}

/// The id of the item a directory entry describes: entries whose extension
/// is exactly `json` are item metadata, and the id is the file name without
/// that extension.
pub open spec fn item_id_of_entry(path: Seq<char>) -> Option<Seq<char>> {
    let name = file_name_of(path);
    match extension_of(name) {
        Some(ext) => if ext == "json"@ {
            Some(name.take(positions_of(name, '.').last()))
        } else {
            None
        },
        None => None,
    }
}

/// The item id a directory entry stands for, if it is an item's metadata.
pub fn gallery_entry_id(path: &str) -> (id: Option<String>)
    ensures
        opt_seq(id) == item_id_of_entry(path@),
{
    match file_extension(path) {
        Some(ext) => {
            if str_eq(ext.as_str(), "json") {
                let name = file_name(path);
                let v = chars_of(name.as_str());
                let d = positions_in(&v, '.');
                proof {
                    crate::text::lemma_positions_of(v@, '.');
                }
                let last = d[d.len() - 1];
                Some(string_of_range(&v, 0, last))
            } else {
                None
            }
        },
        None => None,
    }
}

/// An item's metadata file names the item again: the sidecar that saving
/// an item writes into the gallery directory is listed as that item's id,
/// for every id that is not empty and holds no `/`.
pub proof fn law_sidecar_names_its_item(dir: Seq<char>, id: Seq<char>)
    requires
        id.len() > 0,
        !id.contains('/'),
    ensures
        item_id_of_entry(dir + "/"@ + id + ".json"@) == Some(id),
{
    reveal_strlit("/");
    reveal_strlit(".json");
    reveal_strlit("json");
    let ext = seq!['j', 's', 'o', 'n'];
    assert(".json"@ =~= seq!['.'] + ext);
    assert("json"@ =~= ext);
    let name = id + ".json"@;
    let path = dir + "/"@ + id + ".json"@;
    assert(path =~= (dir + "/"@) + name);
    // The last slash is the one after the directory.
    assert(!name.contains('/')) by {
        if name.contains('/') {
            let k = choose|k: int| 0 <= k < name.len() && name[k] == '/';
            if k < id.len() {
                assert(id[k] == '/');
            } else {
                assert(name[k] == (seq!['.'] + ext)[k - id.len()]);
            }
        }
    }
    crate::text::lemma_positions_absent(name, '/');
    crate::text::lemma_positions_concat(dir + "/"@, name, '/');
    assert(positions_of(name, '/').map_values(|x: int| x + (dir + "/"@).len()) =~= Seq::<int>::empty());
    assert((dir + "/"@).drop_last() =~= dir);
    assert(positions_of(path, '/') =~= positions_of(dir, '/').push(dir.len() as int));
    assert(file_name_of(path) =~= name);
    // The last dot is the one before `json`.
    assert(!ext.contains('.')) by {
        if ext.contains('.') {
            let k = choose|k: int| 0 <= k < ext.len() && ext[k] == '.';
        }
    }
    crate::text::lemma_positions_absent(ext, '.');
    crate::text::lemma_positions_single('.');
    crate::text::lemma_positions_concat(seq!['.'], ext, '.');
    assert(positions_of(ext, '.').map_values(|x: int| x + 1) =~= Seq::<int>::empty());
    assert(positions_of(".json"@, '.') =~= seq![0int]);
    crate::text::lemma_positions_concat(id, ".json"@, '.');
    let d = positions_of(name, '.');
    assert(d =~= positions_of(id, '.') + seq![id.len() as int]);
    assert(d.last() == id.len());
    assert(name.skip(id.len() as int + 1) =~= ext);
    assert(name.take(id.len() as int) =~= id);
}

/// What the gallery's thumbnail of an image file is: the file decoded
/// (`image::load_from_memory`), scaled with the Lanczos3 filter to fit within
/// `max_w` × `max_h` keeping its aspect ratio (`DynamicImage::resize`), as
/// RGBA pixels with their width and height; or the decoder's error text. A
/// function of its arguments alone.
pub uninterp spec fn thumbnail_of(png: Seq<u8>, max_w: u32, max_h: u32) -> Result<(Seq<u8>, u32, u32), Seq<char>>;

/// Decode an image file and scale it to fit within `max_w` × `max_h`
/// (`image::load_from_memory`, then `DynamicImage::resize` with Lanczos3,
/// `to_rgba8`, `dimensions` and `into_raw`). The contract claims the result
/// is that outcome for these arguments, an error carried as its text, with
/// four bytes for each pixel. The bounds keep `resize`'s working buffers,
/// one row of the decoded image per output row, well inside memory for any
/// image the decoder's default allocation limit lets through.
#[verifier::external_body]
fn thumbnail_rgba(png: &[u8], max_w: u32, max_h: u32) -> (r: Result<(Vec<u8>, u32, u32), String>)
    requires
        0 < max_w <= 4096,
        0 < max_h <= 4096,
    ensures
        rgb_result(r) == thumbnail_of(png@, max_w, max_h),
        r matches Ok(v) ==> v.0@.len() == 4 * v.1 * v.2,
{
    let img = image::load_from_memory(png).map_err(|e| e.to_string())?;
    let thumb = img.resize(max_w, max_h, image::imageops::FilterType::Lanczos3).to_rgba8();
    let (w, h) = thumb.dimensions();
    Ok((thumb.into_raw(), w, h))
}

/// The size a gallery thumbnail fits within.
pub const THUMBNAIL_SIZE: u32 = 150;

/// The thumbnail the gallery keeps of a saved image: the image scaled to fit
/// within 150 × 150, as RGBA pixels with their width and height. An image
/// that does not decode is reported with the decoder's message.
pub fn gallery_thumbnail(png: &[u8]) -> (r: Result<(Vec<u8>, u32, u32), String>)
    ensures
        match thumbnail_of(png@, 150, 150) {
            Ok(t) => r matches Ok(v) && (v.0@, v.1, v.2) == t && v.0@.len() == 4 * v.1 * v.2,
            Err(e) => r matches Err(m) && m@ == "Failed to load image: "@ + e,
        },
{
    match thumbnail_rgba(png, THUMBNAIL_SIZE, THUMBNAIL_SIZE) {
        Ok(t) => Ok(t),
        Err(e) => {
            let mut m = String::from_str("Failed to load image: ");
            push_str(&mut m, e.as_str());
            Err(m)
        },
    }
}

/// The error when an item to export does not exist.
pub fn missing_item_message(id: &str) -> (m: String)
    ensures
        m@ == "Gallery item '"@ + id@ + "' not found"@,
{
    let mut m = String::from_str("Gallery item '");
    push_str(&mut m, id);
    push_str(&mut m, "' not found");
    m
}

// ---------------------------------------------------------------------------
// Newest first
// ---------------------------------------------------------------------------

/// `a` sorts strictly before `b` (the order of `String`: character by
/// character, a proper prefix first).
pub open spec fn text_lt(a: Seq<char>, b: Seq<char>) -> bool
    decreases a.len(),
{
    if b.len() == 0 {
        false
    } else if a.len() == 0 {
        true
    } else if a[0] != b[0] {
        (a[0] as int) < (b[0] as int)
    } else {
        text_lt(a.drop_first(), b.drop_first())
    }
}

proof fn lemma_text_lt_irreflexive(a: Seq<char>)
    ensures
        !text_lt(a, a),
    decreases a.len(),
{
    if a.len() > 0 {
        lemma_text_lt_irreflexive(a.drop_first());
    }
}

proof fn lemma_text_lt_transitive(a: Seq<char>, b: Seq<char>, c: Seq<char>)
    requires
        text_lt(a, b),
        text_lt(b, c),
    ensures
        text_lt(a, c),
    decreases a.len(),
{
    if a.len() > 0 && b.len() > 0 && c.len() > 0 && a[0] == b[0] && b[0] == c[0] {
        lemma_text_lt_transitive(a.drop_first(), b.drop_first(), c.drop_first());
    }
}

proof fn lemma_text_lt_total(a: Seq<char>, b: Seq<char>)
    ensures
        text_lt(a, b) || a == b || text_lt(b, a),
    decreases a.len(),
{
    if a.len() > 0 && b.len() > 0 && a[0] == b[0] {
        lemma_text_lt_total(a.drop_first(), b.drop_first());
        if a.drop_first() == b.drop_first() {
            assert(a =~= seq![a[0]] + a.drop_first());
            assert(b =~= seq![b[0]] + b.drop_first());
        }
    } else if a.len() == 0 && b.len() == 0 {
        assert(a =~= b);
    } else if a.len() > 0 && b.len() > 0 {
        assert((a[0] as int) != (b[0] as int));
    }
}

/// Whether `a` sorts strictly before `b`.
pub fn text_less(a: &str, b: &str) -> (r: bool)
    ensures
        r == text_lt(a@, b@),
{
    let av = chars_of(a);
    let bv = chars_of(b);
    let mut i: usize = 0;
    assert(av@.skip(0) =~= av@);
    assert(bv@.skip(0) =~= bv@);
    while i < av.len() && i < bv.len() && av[i] == bv[i]
        invariant
            i <= av@.len(),
            i <= bv@.len(),
            av@ == a@,
            bv@ == b@,
            text_lt(a@, b@) == text_lt(av@.skip(i as int), bv@.skip(i as int)),
        decreases av.len() - i,
    {
        let ghost x = av@.skip(i as int);
        let ghost y = bv@.skip(i as int);
        assert(x.drop_first() =~= av@.skip(i + 1));
        assert(y.drop_first() =~= bv@.skip(i + 1));
        i = i + 1;
    }
    if i == bv.len() {
        return false;
    }
    if i == av.len() {
        return true;
    }
    let ghost x = av@.skip(i as int);
    let ghost y = bv@.skip(i as int);
    assert(x[0] == av@[i as int] && y[0] == bv@[i as int]);
    av[i] < bv[i]
}

/// Item `i` is shown before item `j`: it is newer, or equally new and came
/// first (the sort is stable).
pub open spec fn shown_before(keys: Seq<Seq<char>>, i: int, j: int) -> bool {
    text_lt(keys[j], keys[i]) || (keys[i] == keys[j] && i < j)
}

/// `order` lists every index of `keys` exactly once, newest first.
pub open spec fn is_newest_first(keys: Seq<Seq<char>>, order: Seq<usize>) -> bool {
    &&& order.len() == keys.len()
    &&& forall|k: int| 0 <= k < order.len() ==> #[trigger] order[k] < keys.len()
    &&& forall|k: int, l: int| 0 <= k < l < order.len() ==> order[k] != order[l]
    &&& forall|k: int, l: int| 0 <= k < l < order.len() ==> shown_before(keys, #[trigger] order[k] as int, #[trigger] order[l] as int)
}

/// The view of a list of strings.
pub open spec fn strings_view(v: Seq<String>) -> Seq<Seq<char>> {
    v.map_values(|s: String| s@)
}

/// The order in which the gallery shows items whose timestamps are `keys`:
/// newest first, items with equal timestamps in their listed order.
pub fn newest_first(keys: &Vec<String>) -> (order: Vec<usize>)
    ensures
        is_newest_first(strings_view(keys@), order@),
{
    let ghost ks = strings_view(keys@);
    let mut order: Vec<usize> = Vec::new();
    let mut i: usize = 0;
    while i < keys.len()
        invariant
            i <= keys@.len(),
            ks == strings_view(keys@),
            ks.len() == keys@.len(),
            order@.len() == i,
            forall|k: int| 0 <= k < order@.len() ==> #[trigger] order@[k] < i,
            forall|k: int, l: int| 0 <= k < l < order@.len() ==> order@[k] != order@[l],
            forall|k: int, l: int| 0 <= k < l < order@.len() ==> shown_before(ks, #[trigger] order@[k] as int, #[trigger] order@[l] as int),
        decreases keys.len() - i,
    {
        // The first position whose item the new one goes before.
        let mut p: usize = 0;
        while p < order.len() && !text_less(keys[order[p]].as_str(), keys[i].as_str())
            invariant
                p <= order@.len(),
                i < keys@.len(),
                ks == strings_view(keys@),
                ks.len() == keys@.len(),
                forall|k: int| 0 <= k < order@.len() ==> #[trigger] order@[k] < i,
                forall|k: int| 0 <= k < p ==> !text_lt(ks[#[trigger] order@[k] as int], ks[i as int]),
            decreases order.len() - p,
        {
            assert(ks[order@[p as int] as int] == keys@[order@[p as int] as int]@);
            assert(ks[i as int] == keys@[i as int]@);
            p = p + 1;
        }
        proof {
            if p < order@.len() {
                assert(ks[order@[p as int] as int] == keys@[order@[p as int] as int]@);
                assert(ks[i as int] == keys@[i as int]@);
                assert(text_lt(ks[order@[p as int] as int], ks[i as int]));
            }
        }
        let ghost old_order = order@;
        order.insert(p, i);
        proof {
            assert forall|k: int, l: int| 0 <= k < l < order@.len() implies shown_before(ks, #[trigger] order@[k] as int, #[trigger] order@[l] as int) by {
                if k < p && l < p {
                    assert(order@[k] == old_order[k] && order@[l] == old_order[l]);
                } else if k < p && l == p {
                    let a = old_order[k] as int;
                    assert(!text_lt(ks[a], ks[i as int]));
                    lemma_text_lt_total(ks[a], ks[i as int]);
                    assert(a < i);
                } else if k < p && l > p {
                    assert(order@[k] == old_order[k] && order@[l] == old_order[l - 1]);
                } else if k == p {
                    let b = old_order[l - 1] as int;
                    assert(order@[l] == b);
                    // The item at the insertion point sorts before the new one,
                    // and so does every later item.
                    assert(text_lt(ks[old_order[p as int] as int], ks[i as int]));
                    if l - 1 > p {
                        assert(shown_before(ks, old_order[p as int] as int, b));
                        lemma_text_lt_irreflexive(ks[i as int]);
                        if text_lt(ks[b], ks[old_order[p as int] as int]) {
                            lemma_text_lt_transitive(ks[b], ks[old_order[p as int] as int], ks[i as int]);
                        }
                    }
                    assert(text_lt(ks[b], ks[i as int]));
                } else {
                    assert(order@[k] == old_order[k - 1] && order@[l] == old_order[l - 1]);
                }
            }
            assert forall|k: int, l: int| 0 <= k < l < order@.len() implies order@[k] != order@[l] by {
                if k < p && l < p {
                } else if k < p && l == p {
                } else if k < p && l > p {
                    assert(order@[l] == old_order[l - 1]);
                } else if k == p {
                    assert(order@[l] == old_order[l - 1]);
                } else {
                    assert(order@[k] == old_order[k - 1] && order@[l] == old_order[l - 1]);
                }
            }
        }
        i = i + 1;
    }
    order
}

} // verus!
