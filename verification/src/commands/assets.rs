//! The asset class generator: a Dart class with a getter for every asset file.

use vstd::prelude::*;
use crate::primitives::{
    lower_first, lower_first_char, str_chars, str_lowercase, str_to_lowercase, string_push, upper_first,
    upper_first_char,
};
use crate::text::{
    ascii_lower, ascii_upper, fold_put, is_ascii_char, lemma_fold_put_ends, lemma_fold_put_step, lemma_rfind_char, push_chars, replace_all,
    replace_str, rfind_char, rfind_char_slice, starts_with, str_eq, str_is_empty, str_starts_with, string_of, texts,
    contains, extends, is_match_at, keeps, lemma_rfind_char_last, lemma_contains_keeps, lemma_fold_put_contains, lemma_fold_put_keeps,
    lemma_keeps_trans, ends_with,
};

verus! {

// ---------------------------------------------------------------------------
// Splitting paths
// ---------------------------------------------------------------------------

/// The parts of `s[i..]` separated by `c`, when `cur` has been read of the first one.
pub open spec fn split_from(s: Seq<char>, c: char, i: nat, cur: Seq<char>) -> Seq<Seq<char>>
    decreases s.len() - i,
{
    if i >= s.len() {
        seq![cur]
    } else if s[i as int] == c {
        seq![cur] + split_from(s, c, i + 1, Seq::empty())
    } else {
        split_from(s, c, i + 1, cur.push(s[i as int]))
    }
}

/// The parts of `s` separated by `c` (`str::split` with a character): one more
/// than the occurrences of `c`, some possibly empty.
pub open spec fn split_char(s: Seq<char>, c: char) -> Seq<Seq<char>> {
    split_from(s, c, 0, Seq::empty())
}

/// Splits `s` at every occurrence of `c`.
pub fn split_on_char(s: &str, c: char) -> (r: Vec<String>)
    ensures
        texts(r@) == split_char(s@, c),
{
    let cs = str_chars(s);
    let mut parts: Vec<String> = Vec::new();
    let mut cur = String::new();
    let mut i: usize = 0;
    while i < cs.len()
        invariant
            i <= cs@.len(),
            cs@ == s@,
            texts(parts@) + split_from(cs@, c, i as nat, cur@) == split_char(s@, c),
        decreases cs.len() - i,
    {
        if cs[i] == c {
            let ghost before = parts@;
            let ghost done_text = cur@;
            let done = cur;
            cur = String::new();
            parts.push(done);
            proof {
                assert(texts(parts@) =~= texts(before).push(done_text));
                assert(texts(parts@) + split_from(cs@, c, (i + 1) as nat, cur@) =~= texts(before) + (seq![done_text]
                    + split_from(cs@, c, (i + 1) as nat, Seq::empty())));
            }
        } else {
            string_push(&mut cur, cs[i]);
        }
        i += 1;
    }
    let ghost before = parts@;
    let ghost last = cur@;
    parts.push(cur);
    proof {
        assert(texts(parts@) =~= texts(before).push(last));
        assert(texts(before) + split_from(cs@, c, i as nat, last) =~= texts(before).push(last));
    }
    parts
}

// ---------------------------------------------------------------------------
// Asset files
// ---------------------------------------------------------------------------

/// The category of an asset: for a path `assets/<category>/...` with at least
/// two `/`, the part between the first two; no category otherwise.
pub open spec fn asset_category(path: Seq<char>) -> Option<Seq<char>> {
    let parts = split_char(path, '/');
    if starts_with(path, "assets/"@) && parts.len() >= 3 {
        Some(parts[1])
    } else {
        None
    }
}

/// Splitting always gives at least one part.
proof fn lemma_split_from_nonempty(s: Seq<char>, c: char, i: nat, cur: Seq<char>)
    ensures
        split_from(s, c, i, cur).len() >= 1,
    decreases s.len() - i,
{
    if i < s.len() {
        if s[i as int] == c {
            lemma_split_from_nonempty(s, c, i + 1, Seq::empty());
        } else {
            lemma_split_from_nonempty(s, c, i + 1, cur.push(s[i as int]));
        }
    }
}

/// Reading up to the next `c` at `j` closes the part `cur + s[i..j]`.
proof fn lemma_split_from_part(s: Seq<char>, c: char, i: nat, j: nat, cur: Seq<char>)
    requires
        i <= j < s.len(),
        s[j as int] == c,
        forall|k: int| i <= k < j ==> s[k] != c,
    ensures
        split_from(s, c, i, cur) == seq![cur + s.subrange(i as int, j as int)] + split_from(s, c, j + 1, Seq::empty()),
    decreases j - i,
{
    if i == j {
        assert(cur + s.subrange(i as int, j as int) =~= cur);
    } else {
        lemma_split_from_part(s, c, i + 1, j, cur.push(s[i as int]));
        assert(cur.push(s[i as int]) + s.subrange(i + 1 as int, j as int) =~= cur + s.subrange(i as int, j as int));
    }
}

/// The category of `assets/<c>/<rest>` is `c`, when `c` holds no `/`: assets are
/// grouped by the directory right under `assets/`.
pub proof fn lemma_asset_category_is_first_directory(c: Seq<char>, rest: Seq<char>)
    requires
        forall|k: int| 0 <= k < c.len() ==> c[k] != '/',
    ensures
        asset_category("assets/"@ + c + "/"@ + rest) == Some(c),
{
    reveal_strlit("assets/");
    reveal_strlit("/");
    let s = "assets/"@ + c + "/"@ + rest;
    assert(s.subrange(0, 7) =~= "assets/"@);
    assert(s[6] == '/');
    assert forall|k: int| 0 <= k < 6 implies s[k] != '/' by {}
    lemma_split_from_part(s, '/', 0, 6, Seq::empty());
    assert(s[7 + c.len() as int] == '/');
    assert forall|k: int| 7 <= k < 7 + c.len() implies s[k] != '/' by {
        assert(s[k] == c[k - 7]);
    }
    lemma_split_from_part(s, '/', 7, (7 + c.len()) as nat, Seq::empty());
    lemma_split_from_nonempty(s, '/', (8 + c.len()) as nat, Seq::empty());
    assert(Seq::<char>::empty() + s.subrange(7, 7 + c.len() as int) =~= c);
    let parts = split_char(s, '/');
    assert(parts.len() >= 3);
    assert(parts[1] == c);
}

/// Finds the category of an asset path, as `asset_category` describes.
pub fn get_asset_category(asset_file: &str) -> (r: Option<String>)
    ensures
        match r {
            Some(c) => asset_category(asset_file@) == Some(c@),
            None => asset_category(asset_file@) is None,
        },
{
    if str_starts_with(asset_file, "assets/") {
        let parts = split_on_char(asset_file, '/');
        if parts.len() >= 3 {
            assert(texts(parts@)[1] == parts@[1]@);
            return Some(parts[1].clone());
        }
    }
    None
}

/// The extension of a file name: the text after its last `.`, or the whole name
/// when it has none (`split('.').last()`).
pub open spec fn extension(path: Seq<char>) -> Seq<char> {
    match rfind_char(path, '.') {
        Some(k) => path.skip(k + 1),
        None => path,
    }
}

/// The kind of an asset by its extension, compared in lowercase: `image` for
/// `png`, `jpg`, `jpeg`, `gif`, `webp` and `svg`; `font` for `ttf`, `otf`, `woff`
/// and `woff2`; `data` for anything else.
pub open spec fn asset_type(path: Seq<char>) -> Seq<char> {
    let e = str_lowercase(extension(path));
    if e == "png"@ || e == "jpg"@ || e == "jpeg"@ || e == "gif"@ || e == "webp"@ || e == "svg"@ {
        "image"@
    } else if e == "ttf"@ || e == "otf"@ || e == "woff"@ || e == "woff2"@ {
        "font"@
    } else {
        "data"@
    }
}

/// An asset is an image when its extension, lowercased, is `png`, `jpg`, `jpeg`,
/// `gif`, `webp` or `svg`; a font when it is `ttf`, `otf`, `woff` or `woff2`; and
/// data otherwise.
pub proof fn lemma_asset_type_by_extension(path: Seq<char>)
    ensures
        ({
            let e = str_lowercase(extension(path));
            &&& (e == "png"@ || e == "jpg"@ || e == "jpeg"@ || e == "gif"@ || e == "webp"@ || e == "svg"@)
                ==> asset_type(path) == "image"@
            &&& (e == "ttf"@ || e == "otf"@ || e == "woff"@ || e == "woff2"@) ==> asset_type(path) == "font"@
            &&& !(e == "png"@ || e == "jpg"@ || e == "jpeg"@ || e == "gif"@ || e == "webp"@ || e == "svg"@
                || e == "ttf"@ || e == "otf"@ || e == "woff"@ || e == "woff2"@) ==> asset_type(path) == "data"@
        }),
{
    reveal_strlit("png");
    reveal_strlit("jpg");
    reveal_strlit("jpeg");
    reveal_strlit("gif");
    reveal_strlit("webp");
    reveal_strlit("svg");
    reveal_strlit("ttf");
    reveal_strlit("otf");
    reveal_strlit("woff");
    reveal_strlit("woff2");
    reveal_strlit("image");
    reveal_strlit("font");
    reveal_strlit("data");
    assert("png"@[0] != "ttf"@[0]);
    assert("png"@[0] != "otf"@[0]);
    assert("png"@.len() != "woff"@.len());
    assert("png"@.len() != "woff2"@.len());
    assert("jpg"@[0] != "ttf"@[0]);
    assert("jpg"@[0] != "otf"@[0]);
    assert("jpg"@.len() != "woff"@.len());
    assert("jpg"@.len() != "woff2"@.len());
    assert("jpeg"@.len() != "ttf"@.len());
    assert("jpeg"@.len() != "otf"@.len());
    assert("jpeg"@[0] != "woff"@[0]);
    assert("jpeg"@.len() != "woff2"@.len());
    assert("gif"@[0] != "ttf"@[0]);
    assert("gif"@[0] != "otf"@[0]);
    assert("gif"@.len() != "woff"@.len());
    assert("gif"@.len() != "woff2"@.len());
    assert("webp"@.len() != "ttf"@.len());
    assert("webp"@.len() != "otf"@.len());
    assert("webp"@[1] != "woff"@[1]);
    assert("webp"@.len() != "woff2"@.len());
    assert("svg"@[0] != "ttf"@[0]);
    assert("svg"@[0] != "otf"@[0]);
    assert("svg"@.len() != "woff"@.len());
    assert("svg"@.len() != "woff2"@.len());
}

/// The extension of a path that ends with `.` and a text without `.` is that text:
/// `assets/images/photo.jpg` has the extension `jpg`.
pub proof fn lemma_extension_after_last_dot(path: Seq<char>, x: Seq<char>)
    requires
        ends_with(path, "."@ + x),
        forall|i: int| 0 <= i < x.len() ==> x[i] != '.',
    ensures
        extension(path) == x,
{
    reveal_strlit(".");
    let k = path.len() - x.len() - 1;
    assert(path.subrange(k, path.len() as int) =~= "."@ + x);
    assert(path.subrange(k, path.len() as int)[0] == path[k]);
    assert(path[k] == '.');
    lemma_rfind_char(path, '.');
    lemma_rfind_char_last(path, '.');
    match rfind_char(path, '.') {
        Some(j) => {
            if j > k {
                assert(path.subrange(k, path.len() as int)[j - k] == path[j]);
                assert(path[j] == x[j - k - 1]);
            }
            assert(j == k);
            assert forall|i: int| 0 <= i < x.len() implies path.skip(k + 1)[i] == x[i] by {
                assert(path.subrange(k, path.len() as int)[i + 1] == path[k + 1 + i]);
            }
            assert(path.skip(k + 1) =~= x);
        },
        None => {
            assert(false);
        },
    }
}

/// Finds the kind of an asset, as `asset_type` describes.
pub fn get_asset_type(asset_file: &str) -> (r: &'static str)
    ensures
        r@ == asset_type(asset_file@),
{
    let cs = str_chars(asset_file);
    let n = cs.len();
    let ext = match rfind_char_slice(cs.as_slice(), '.') {
        Some(k) => {
            proof {
                lemma_rfind_char(cs@, '.');
            }
            let e = string_of(cs.as_slice(), k + 1, n);
            assert(cs@.subrange(k + 1, cs@.len() as int) =~= cs@.skip(k + 1));
            e
        },
        None => String::from_str(asset_file),
    };
    let lower = str_to_lowercase(ext.as_str());
    let e = lower.as_str();
    if str_eq(e, "png") || str_eq(e, "jpg") || str_eq(e, "jpeg") || str_eq(e, "gif") || str_eq(e, "webp")
        || str_eq(e, "svg") {
        "image"
    } else if str_eq(e, "ttf") || str_eq(e, "otf") || str_eq(e, "woff") || str_eq(e, "woff2") {
        "font"
    } else {
        "data"
    }
}

/// `s` can be capitalized: it is empty or begins with an ASCII character (the
/// rest of the text is taken from its second byte on).
pub open spec fn capitalizable(s: Seq<char>) -> bool {
    s.len() == 0 || is_ascii_char(s[0])
}

/// `s` with its first character uppercased.
pub open spec fn capitalized(s: Seq<char>) -> Seq<char> {
    if s.len() == 0 {
        s
    } else {
        seq![upper_first(s[0])] + s.skip(1)
    }
}

/// Uppercases the first character of `s`.
pub fn capitalize_first(s: &str) -> (r: String)
    requires
        capitalizable(s@),
    ensures
        r@ == capitalized(s@),
{
    let cs = str_chars(s);
    if cs.len() == 0 {
        return String::from_str(s);
    }
    let mut result = String::new();
    string_push(&mut result, upper_first_char(cs[0]));
    push_chars(&mut result, cs.as_slice(), 1, cs.len());
    assert(cs@.subrange(1, cs@.len() as int) =~= cs@.skip(1));
    assert(seq![upper_first(cs@[0])] + cs@.skip(1) =~= Seq::<char>::empty().push(upper_first(cs@[0])) + cs@.skip(1));
    result
}

// ---------------------------------------------------------------------------
// Constant names
// ---------------------------------------------------------------------------

/// A path without its leading `assets/`.
pub open spec fn without_assets_prefix(path: Seq<char>) -> Seq<char> {
    if starts_with(path, "assets/"@) {
        path.skip(7)
    } else {
        path
    }
}

/// A file name without its extension (the text from its last `.` on).
pub open spec fn without_extension(part: Seq<char>) -> Seq<char> {
    match rfind_char(part, '.') {
        Some(k) => part.take(k),
        None => part,
    }
}

/// `-` and `_` become spaces, which mark the words of a constant name.
pub open spec fn word_mark(c: char) -> char {
    if c == '-' || c == '_' {
        ' '
    } else {
        c
    }
}

/// `o` followed by a path part as it enters a constant name: without its
/// extension, its first character lowercased and `-`/`_` turned into spaces.
pub open spec fn put_name_part(o: Seq<char>, part: Seq<char>) -> Seq<char> {
    let p = without_extension(part);
    if p.len() == 0 {
        o
    } else {
        o.push(lower_first(p[0])) + p.skip(1).map_values(|c: char| word_mark(c))
    }
}

/// The last part of `ps` that is not empty, or the empty text.
pub open spec fn last_nonempty(ps: Seq<Seq<char>>) -> Seq<char>
    decreases ps.len(),
{
    if ps.len() == 0 {
        Seq::empty()
    } else if ps.last().len() > 0 {
        ps.last()
    } else {
        last_nonempty(ps.drop_last())
    }
}

/// Writes after `out` the characters `s[i..]` with the spaces removed and the
/// character after each space uppercased (when `cap` holds, the first one too).
pub open spec fn put_words(out: Seq<char>, s: Seq<char>, i: nat, cap: bool) -> Seq<char>
    decreases s.len() - i,
{
    if i >= s.len() {
        out
    } else {
        let c = s[i as int];
        if c == ' ' {
            put_words(out, s, i + 1, true)
        } else if cap {
            put_words(out.push(upper_first(c)), s, i + 1, false)
        } else {
            put_words(out.push(c), s, i + 1, false)
        }
    }
}

/// The camelCase constant name of an asset, from its file name: the last
/// non-empty part of its path, without its extension and with its first
/// character lowercased; then each `-`, `_` or space dropped and the next
/// character uppercased. `assets/images/logo.png` gives `logo`, and
/// `assets/fonts/Roboto-Regular.ttf` gives `robotoRegular`.
pub open spec fn constant_name(path: Seq<char>) -> Seq<char> {
    let file_name = last_nonempty(split_char(without_assets_prefix(path), '/'));
    put_words(Seq::empty(), put_name_part(Seq::empty(), file_name), 0, false)
}

/// Appends a path part to a constant name as `put_name_part` describes.
fn push_name_part(out: &mut String, part: &str)
    ensures
        final(out)@ == put_name_part(old(out)@, part@),
        ({
            let p = without_extension(part@);
            p.len() > 0 && is_ascii_char(p[0]) ==> lower_first(p[0]) == ascii_lower(p[0])
        }),
{
    let cs = str_chars(part);
    let end = match rfind_char_slice(cs.as_slice(), '.') {
        Some(k) => {
            proof {
                lemma_rfind_char(cs@, '.');
            }
            k
        },
        None => cs.len(),
    };
    assert(cs@.subrange(0, end as int) =~= without_extension(part@));
    if end == 0 {
        return;
    }
    let ghost p = cs@.subrange(0, end as int);
    let ghost start = old(out)@.push(lower_first(p[0]));
    string_push(out, lower_first_char(cs[0]));
    let mut i: usize = 1;
    while i < end
        invariant
            1 <= i <= end <= cs@.len(),
            p == cs@.subrange(0, end as int),
            out@ == start + p.subrange(1, i as int).map_values(|c: char| word_mark(c)),
        decreases end - i,
    {
        let c = cs[i];
        let m = if c == '-' || c == '_' {
            ' '
        } else {
            c
        };
        string_push(out, m);
        assert(p.subrange(1, i + 1).map_values(|c: char| word_mark(c)) =~= p.subrange(1, i as int).map_values(
            |c: char| word_mark(c),
        ).push(word_mark(p[i as int])));
        i += 1;
    }
    assert(p.subrange(1, end as int) =~= p.skip(1));
}

/// The file name that the constant of an asset is named after: the last
/// non-empty part of its path.
pub open spec fn asset_file_name(path: Seq<char>) -> Seq<char> {
    last_nonempty(split_char(without_assets_prefix(path), '/'))
}

/// `n` is ASCII and does not begin with `-` or `_`.
pub open spec fn plain_ascii_name(n: Seq<char>) -> bool {
    &&& forall|i: int| 0 <= i < n.len() ==> is_ascii_char(#[trigger] n[i])
    &&& n.len() > 0 ==> n[0] != '-' && n[0] != '_'
}

/// `s` holds no `-`, `_` or space.
pub open spec fn camel_word(s: Seq<char>) -> bool {
    forall|i: int| 0 <= i < s.len() ==> #[trigger] s[i] != '-' && s[i] != '_' && s[i] != ' '
}

/// Converts an asset path to its camelCase constant name, as `constant_name`
/// describes. The name holds no `-`, `_` or space when the file name is ASCII
/// and does not begin with `-` or `_`.
pub fn asset_file_to_constant_name_camel_case(asset_file: &str) -> (r: String)
    ensures
        r@ == constant_name(asset_file@),
        plain_ascii_name(asset_file_name(asset_file@)) ==> camel_word(r@),
{
    let cs = str_chars(asset_file);
    let rest = if str_starts_with(asset_file, "assets/") {
        proof {
            reveal_strlit("assets/");
        }
        let r = string_of(cs.as_slice(), 7, cs.len());
        assert(cs@.subrange(7, cs@.len() as int) =~= cs@.skip(7));
        r
    } else {
        String::from_str(asset_file)
    };
    let parts = split_on_char(rest.as_str(), '/');
    let ghost ps = texts(parts@);
    let mut j: usize = parts.len();
    assert(ps.take(j as int) =~= ps);
    while j > 0 && str_is_empty(parts[j - 1].as_str())
        invariant
            j <= parts@.len(),
            ps == texts(parts@),
            last_nonempty(ps.take(j as int)) == last_nonempty(ps),
        decreases j,
    {
        assert(ps.take(j - 1) =~= ps.take(j as int).drop_last());
        j -= 1;
    }
    let mut marked = String::new();
    if j > 0 {
        assert(ps.take(j as int).last() == ps[j - 1]);
        assert(ps[j - 1] == parts@[j - 1]@);
        assert(asset_file_name(asset_file@) == parts@[j - 1]@);
        push_name_part(&mut marked, parts[j - 1].as_str());
    } else {
        assert(ps.take(0) =~= Seq::<Seq<char>>::empty());
        proof {
            reveal_strlit("");
        }
        assert(asset_file_name(asset_file@) == ""@);
        push_name_part(&mut marked, "");
    }
    let ghost plain = plain_ascii_name(asset_file_name(asset_file@));
    proof {
        if plain {
            lemma_plain_name_marks(asset_file_name(asset_file@));
        }
    }
    assert(plain ==> forall|m: int|
        0 <= m < marked@.len() ==> is_ascii_char(#[trigger] marked@[m]) && marked@[m] != '-' && marked@[m] != '_');
    let ms = str_chars(marked.as_str());
    let mut result = String::new();
    let mut capitalize_next = false;
    let mut k: usize = 0;
    while k < ms.len()
        invariant
            k <= ms@.len(),
            ms@ == marked@,
            put_words(result@, ms@, k as nat, capitalize_next) == constant_name(asset_file@),
            plain ==> forall|m: int|
                0 <= m < ms@.len() ==> is_ascii_char(#[trigger] ms@[m]) && ms@[m] != '-' && ms@[m] != '_',
            plain ==> camel_word(result@),
        decreases ms.len() - k,
    {
        let ch = ms[k];
        if ch == ' ' {
            capitalize_next = true;
        } else if capitalize_next {
            let up = upper_first_char(ch);
            let ghost before = result@;
            string_push(&mut result, up);
            proof {
                if plain {
                    assert(is_ascii_char(ch) && ch != '-' && ch != '_');
                    lemma_ascii_upper_plain(ch);
                    assert forall|i: int| 0 <= i < result@.len() implies #[trigger] result@[i] != '-' && result@[i]
                        != '_' && result@[i] != ' ' by {
                        if i < before.len() {
                            assert(result@[i] == before[i]);
                        }
                    }
                }
            }
            capitalize_next = false;
        } else {
            let ghost before = result@;
            string_push(&mut result, ch);
            proof {
                if plain {
                    assert forall|i: int| 0 <= i < result@.len() implies #[trigger] result@[i] != '-' && result@[i]
                        != '_' && result@[i] != ' ' by {
                        if i < before.len() {
                            assert(result@[i] == before[i]);
                        }
                    }
                }
            }
        }
        k += 1;
    }
    result
}

/// A plain ASCII file name enters a constant name with ASCII characters only,
/// none of them `-` or `_`, given that its first character is lowercased by the
/// ASCII mapping.
proof fn lemma_plain_name_marks(n: Seq<char>)
    requires
        plain_ascii_name(n),
        without_extension(n).len() > 0 && is_ascii_char(without_extension(n)[0]) ==> lower_first(
            without_extension(n)[0],
        ) == ascii_lower(without_extension(n)[0]),
    ensures
        forall|m: int|
            0 <= m < put_name_part(Seq::empty(), n).len() ==> is_ascii_char(
                #[trigger] put_name_part(Seq::empty(), n)[m],
            ) && put_name_part(Seq::empty(), n)[m] != '-' && put_name_part(Seq::empty(), n)[m] != '_',
{
    lemma_rfind_char(n, '.');
    let p = without_extension(n);
    assert(p.len() <= n.len());
    assert(forall|i: int| 0 <= i < p.len() ==> p[i] == n[i]);
    if p.len() > 0 {
        let q = put_name_part(Seq::empty(), n);
        assert(q =~= seq![lower_first(p[0])] + p.skip(1).map_values(|c: char| word_mark(c)));
        assert forall|m: int| 0 <= m < q.len() implies is_ascii_char(#[trigger] q[m]) && q[m] != '-' && q[m]
            != '_' by {
            if m == 0 {
                assert(is_ascii_char(n[0]));
            } else {
                assert(q[m] == word_mark(p[m]));
                assert(is_ascii_char(n[m]));
            }
        }
    }
}

/// The ASCII uppercase of an ASCII character other than `-`, `_` and space is
/// none of them.
proof fn lemma_ascii_upper_plain(c: char)
    requires
        is_ascii_char(c),
        c != '-' && c != '_' && c != ' ',
    ensures
        ascii_upper(c) != '-' && ascii_upper(c) != '_' && ascii_upper(c) != ' ',
{
}

// ---------------------------------------------------------------------------
// The generated asset classes
// ---------------------------------------------------------------------------

/// An asset path with each `//` replaced by `/`.
pub open spec fn normalized(path: Seq<char>) -> Seq<char> {
    replace_all(path, "//"@, "/"@)
}

/// The categories of the asset paths `fs`, each once, in order of first appearance.
pub open spec fn categories(fs: Seq<Seq<char>>) -> Seq<Seq<char>>
    decreases fs.len(),
{
    if fs.len() == 0 {
        Seq::empty()
    } else {
        let prev = categories(fs.drop_last());
        match asset_category(fs.last()) {
            Some(c) => if prev.contains(c) {
                prev
            } else {
                prev.push(c)
            },
            None => prev,
        }
    }
}

/// The asset paths of `fs` in the category `c`, in order.
pub open spec fn files_of(fs: Seq<Seq<char>>, c: Seq<char>) -> Seq<Seq<char>>
    decreases fs.len(),
{
    if fs.len() == 0 {
        Seq::empty()
    } else {
        let prev = files_of(fs.drop_last(), c);
        if asset_category(fs.last()) == Some(c) {
            prev.push(fs.last())
        } else {
            prev
        }
    }
}

/// Every category has at least one file.
pub proof fn lemma_category_has_files(fs: Seq<Seq<char>>, c: Seq<char>)
    requires
        categories(fs).contains(c),
    ensures
        files_of(fs, c).len() > 0,
    decreases fs.len(),
{
    let prev = categories(fs.drop_last());
    if prev.contains(c) {
        lemma_category_has_files(fs.drop_last(), c);
    } else {
        match asset_category(fs.last()) {
            Some(d) => {
                assert(categories(fs) == prev.push(d));
                assert(prev.push(d).contains(c));
                let k = choose|k: int| 0 <= k < prev.push(d).len() && prev.push(d)[k] == c;
                if k < prev.len() {
                    assert(prev.contains(c));
                }
            },
            None => {},
        }
    }
}

/// Every category is the category of some file.
pub proof fn lemma_category_of_some_file(fs: Seq<Seq<char>>, c: Seq<char>)
    requires
        categories(fs).contains(c),
    ensures
        exists|i: int| 0 <= i < fs.len() && asset_category(#[trigger] fs[i]) == Some(c),
    decreases fs.len(),
{
    let prev = categories(fs.drop_last());
    if prev.contains(c) {
        lemma_category_of_some_file(fs.drop_last(), c);
        let i = choose|i: int| 0 <= i < fs.drop_last().len() && asset_category(#[trigger] fs.drop_last()[i]) == Some(c);
        assert(fs[i] == fs.drop_last()[i]);
    } else {
        match asset_category(fs.last()) {
            Some(d) => {
                let k = choose|k: int| 0 <= k < prev.push(d).len() && prev.push(d)[k] == c;
                if k < prev.len() {
                    assert(prev.contains(c));
                }
                assert(fs[fs.len() - 1] == fs.last());
            },
            None => {},
        }
    }
}

/// The class of the category `c`: `$Assets` and the category capitalized, then `Gen`.
pub open spec fn category_class(c: Seq<char>) -> Seq<char> {
    "$Assets"@ + capitalized(c) + "Gen"@
}

/// `o` followed by the getter of the asset `f`: an `AssetGenImage` for an image,
/// the path as a `String` for anything else.
pub open spec fn put_asset_getter(o: Seq<char>, f: Seq<char>) -> Seq<char> {
    let o1 = o + "  /// File path: "@ + f + "\n"@;
    if asset_type(f) == "image"@ {
        o1 + "  AssetGenImage get "@ + constant_name(f) + " => const AssetGenImage('"@ + f + "');\n"@
    } else {
        o1 + "  String get "@ + constant_name(f) + " => '"@ + f + "';\n"@
    }
}

/// Every asset is documented by its path, then an image gets an `AssetGenImage`
/// getter and any other asset a `String` getter holding its path.
pub proof fn lemma_asset_getter_by_type(o: Seq<char>, f: Seq<char>)
    ensures
        asset_type(f) == "image"@ ==> put_asset_getter(o, f) == o + "  /// File path: "@ + f + "\n"@
            + "  AssetGenImage get "@ + constant_name(f) + " => const AssetGenImage('"@ + f + "');\n"@,
        asset_type(f) != "image"@ ==> put_asset_getter(o, f) == o + "  /// File path: "@ + f + "\n"@
            + "  String get "@ + constant_name(f) + " => '"@ + f + "';\n"@,
{
}

/// `put_asset_getter` as a function of the text so far and the asset.
pub open spec fn asset_getter_fn() -> spec_fn(Seq<char>, Seq<char>) -> Seq<char> {
    |o: Seq<char>, f: Seq<char>| put_asset_getter(o, f)
}

/// `o` followed by `, ` and the constant name of `f`.
pub open spec fn next_name_fn() -> spec_fn(Seq<char>, Seq<char>) -> Seq<char> {
    |o: Seq<char>, f: Seq<char>| o + ", "@ + constant_name(f)
}

/// `o` followed by the constant names of `fs`, separated by `, `.
pub open spec fn put_name_list(o: Seq<char>, fs: Seq<Seq<char>>) -> Seq<char> {
    if fs.len() == 0 {
        o
    } else {
        fold_put(o + constant_name(fs[0]), fs.skip(1), next_name_fn())
    }
}

/// `o` followed by the class of the category `c` with the assets `fs`: a getter
/// for each asset and the list of all of them, typed by the kind of the first.
pub open spec fn put_category_class(o: Seq<char>, c: Seq<char>, fs: Seq<Seq<char>>) -> Seq<char> {
    let cn = category_class(c);
    let o1 = fold_put(o + "class "@ + cn + " {\n  const "@ + cn + "();\n\n"@, fs, asset_getter_fn());
    let o2 = o1 + "\n  /// List of all assets\n"@ + if asset_type(fs[0]) == "image"@ {
        "  List<AssetGenImage> get values => ["@
    } else {
        "  List<String> get values => ["@
    };
    put_name_list(o2, fs) + "];\n}\n\n"@
}

/// `put_category_class` for the assets `fs`, as a function of the text so far and the category.
pub open spec fn category_class_fn(fs: Seq<Seq<char>>) -> spec_fn(Seq<char>, Seq<char>) -> Seq<char> {
    |o: Seq<char>, c: Seq<char>| put_category_class(o, c, files_of(fs, c))
}

/// The field of the `Assets` class for the category `c`.
pub open spec fn category_field_fn() -> spec_fn(Seq<char>, Seq<char>) -> Seq<char> {
    |o: Seq<char>, c: Seq<char>| o + "  static const "@ + category_class(c) + " "@ + c + " = "@ + category_class(c) + "();\n"@
}

/// The start of the generated file: comments and the import of `flutter/widgets`.
pub open spec fn assets_file_head() -> Seq<char> {
    "// dart format width=80\n\n/// GENERATED CODE - DO NOT MODIFY BY HAND\n/// *****************************************************\n///  FlutterGen\n/// *****************************************************\n\n// coverage:ignore-file\n// ignore_for_file: type=lint\n// ignore_for_file: deprecated_member_use,directives_ordering,implicit_dynamic_list_literal,unnecessary_import\n\nimport 'package:flutter/widgets.dart';\n\n"@
}

/// The `AssetGenImage` and `AssetGenImageAnimation` classes that end the file.
pub open spec fn assets_file_tail() -> Seq<char> {
    "class AssetGenImage {\n  const AssetGenImage(\n    this._assetName, {\n    this.size,\n    this.flavors = const {},\n    this.animation,\n  });\n\n  final String _assetName;\n\n  final Size? size;\n  final Set<String> flavors;\n  final AssetGenImageAnimation? animation;\n\n  Image image({\n    Key? key,\n    AssetBundle? bundle,\n    ImageFrameBuilder? frameBuilder,\n    ImageErrorWidgetBuilder? errorBuilder,\n    String? semanticLabel,\n    bool excludeFromSemantics = false,\n    double? scale,\n    double? width,\n    double? height,\n    Color? color,\n    Animation<double>? opacity,\n    BlendMode? colorBlendMode,\n    BoxFit? fit,\n    AlignmentGeometry alignment = Alignment.center,\n    ImageRepeat repeat = ImageRepeat.noRepeat,\n    Rect? centerSlice,\n    bool matchTextDirection = false,\n    bool gaplessPlayback = true,\n    bool isAntiAlias = false,\n    String? package,\n    FilterQuality filterQuality = FilterQuality.medium,\n    int? cacheWidth,\n    int? cacheHeight,\n  }) {\n    return Image.asset(\n      _assetName,\n      key: key,\n      bundle: bundle,\n      frameBuilder: frameBuilder,\n      errorBuilder: errorBuilder,\n      semanticLabel: semanticLabel,\n      excludeFromSemantics: excludeFromSemantics,\n      scale: scale,\n      width: width,\n      height: height,\n      color: color,\n      opacity: opacity,\n      colorBlendMode: colorBlendMode,\n      fit: fit,\n      alignment: alignment,\n      repeat: repeat,\n      centerSlice: centerSlice,\n      matchTextDirection: matchTextDirection,\n      gaplessPlayback: gaplessPlayback,\n      isAntiAlias: isAntiAlias,\n      package: package,\n      filterQuality: filterQuality,\n      cacheWidth: cacheWidth,\n      cacheHeight: cacheHeight,\n    );\n  }\n\n  ImageProvider provider({AssetBundle? bundle, String? package}) {\n    return AssetImage(_assetName, bundle: bundle, package: package);\n  }\n\n  String get path => _assetName;\n\n  String get keyName => _assetName;\n}\n\nclass AssetGenImageAnimation {\n  const AssetGenImageAnimation({\n    required this.isAnimation,\n    required this.duration,\n    required this.frames,\n  });\n\n  final bool isAnimation;\n  final Duration duration;\n  final int frames;\n}\n"@
}

/// The text of `assets.gen.dart` for the asset paths `files` (with `//` read as
/// `/`): a class for each category in order of first appearance, holding the
/// getters of its assets in order; the `Assets` class with a field for each
/// category; and the image helper classes. Assets without a category are left out.
pub open spec fn dart_assets_text(files: Seq<Seq<char>>) -> Seq<char> {
    let fs = files.map_values(|f: Seq<char>| normalized(f));
    let cs = categories(fs);
    let classes = fold_put(assets_file_head(), cs, category_class_fn(fs));
    let main = fold_put(classes + "class Assets {\n  const Assets._();\n\n"@, cs, category_field_fn());
    main + "}\n\n"@ + assets_file_tail()
}

/// Every category of the asset paths `files` can be capitalized.
pub open spec fn categories_capitalizable(files: Seq<Seq<char>>) -> bool {
    forall|i: int|
        0 <= i < files.len() ==> match #[trigger] asset_category(normalized(files[i])) {
            Some(c) => capitalizable(c),
            None => true,
        }
}

/// Appends the constant names of `files`, separated by `, `.
fn emit_name_list(code: &mut String, files: &Vec<String>)
    ensures
        final(code)@ == put_name_list(old(code)@, texts(files@)),
{
    let ghost fs = texts(files@);
    if files.len() == 0 {
        return;
    }
    let first = asset_file_to_constant_name_camel_case(files[0].as_str());
    code.append(first.as_str());
    let ghost start = code@;
    proof {
        lemma_fold_put_ends(start, fs, next_name_fn());
    }
    let mut i: usize = 1;
    while i < files.len()
        invariant
            1 <= i <= files@.len(),
            fs == texts(files@),
            fold_put(code@, fs.skip(i as int), next_name_fn()) == fold_put(start, fs.skip(1), next_name_fn()),
        decreases files.len() - i,
    {
        let ghost before = code@;
        let name = asset_file_to_constant_name_camel_case(files[i].as_str());
        code.append(", ");
        code.append(name.as_str());
        proof {
            lemma_fold_put_step(before, fs, i as int, next_name_fn());
        }
        i += 1;
    }
    proof {
        lemma_fold_put_ends(code@, fs, next_name_fn());
    }
}

/// Appends the class of a category with its assets `files`.
fn emit_category_class(code: &mut String, c: &str, files: &Vec<String>)
    requires
        capitalizable(c@),
        files@.len() > 0,
    ensures
        final(code)@ == put_category_class(old(code)@, c@, texts(files@)),
{
    let ghost fs = texts(files@);
    let cap = capitalize_first(c);
    let mut cn = String::from_str("$Assets");
    cn.append(cap.as_str());
    cn.append("Gen");
    code.append("class ");
    code.append(cn.as_str());
    code.append(" {\n  const ");
    code.append(cn.as_str());
    code.append("();\n\n");
    let ghost start = code@;
    proof {
        lemma_fold_put_ends(start, fs, asset_getter_fn());
    }
    let mut i: usize = 0;
    while i < files.len()
        invariant
            i <= files@.len(),
            fs == texts(files@),
            fold_put(code@, fs.skip(i as int), asset_getter_fn()) == fold_put(start, fs, asset_getter_fn()),
        decreases files.len() - i,
    {
        let ghost before = code@;
        let f = files[i].as_str();
        let name = asset_file_to_constant_name_camel_case(f);
        code.append("  /// File path: ");
        code.append(f);
        code.append("\n");
        if str_eq(get_asset_type(f), "image") {
            code.append("  AssetGenImage get ");
            code.append(name.as_str());
            code.append(" => const AssetGenImage('");
            code.append(f);
            code.append("');\n");
        } else {
            code.append("  String get ");
            code.append(name.as_str());
            code.append(" => '");
            code.append(f);
            code.append("';\n");
        }
        proof {
            lemma_fold_put_step(before, fs, i as int, asset_getter_fn());
        }
        i += 1;
    }
    proof {
        lemma_fold_put_ends(code@, fs, asset_getter_fn());
    }
    code.append("\n  /// List of all assets\n");
    if str_eq(get_asset_type(files[0].as_str()), "image") {
        code.append("  List<AssetGenImage> get values => [");
    } else {
        code.append("  List<String> get values => [");
    }
    emit_name_list(code, files);
    code.append("];\n}\n\n");
}

/// Generates `assets.gen.dart` for the asset paths `asset_files`, as
/// `dart_assets_text` describes.
pub fn generate_dart_assets_class(asset_files: &[String]) -> (r: String)
    requires
        categories_capitalizable(texts(asset_files@)),
    ensures
        r@ == dart_assets_text(texts(asset_files@)),
{
    let ghost files = texts(asset_files@);
    let ghost fs = files.map_values(|f: Seq<char>| normalized(f));
    // The normalized paths and their categories.
    let mut norm: Vec<String> = Vec::new();
    let mut cats: Vec<String> = Vec::new();
    let mut i: usize = 0;
    while i < asset_files.len()
        invariant
            i <= asset_files@.len(),
            files == texts(asset_files@),
            fs == files.map_values(|f: Seq<char>| normalized(f)),
            texts(norm@) == fs.take(i as int),
            texts(cats@) == categories(fs.take(i as int)),
        decreases asset_files.len() - i,
    {
        proof {
            reveal_strlit("//");
        }
        let n = replace_str(asset_files[i].as_str(), "//", "/");
        let ghost prev_norm = norm@;
        let ghost prev_cats = cats@;
        proof {
            assert(fs.take(i + 1).drop_last() =~= fs.take(i as int));
            assert(fs.take(i + 1).last() == n@);
        }
        match get_asset_category(n.as_str()) {
            Some(c) => {
                let mut seen = false;
                let mut k: usize = 0;
                while k < cats.len()
                    invariant
                        k <= cats@.len(),
                        seen <==> exists|m: int| 0 <= m < k && #[trigger] texts(cats@)[m] == c@,
                    decreases cats.len() - k,
                {
                    assert(texts(cats@)[k as int] == cats@[k as int]@);
                    if str_eq(cats[k].as_str(), c.as_str()) {
                        seen = true;
                    }
                    k += 1;
                }
                if !seen {
                    cats.push(c);
                    proof {
                        assert(texts(cats@) =~= texts(prev_cats).push(c@));
                        if texts(prev_cats).contains(c@) {
                            let m = choose|m: int| 0 <= m < texts(prev_cats).len() && texts(prev_cats)[m] == c@;
                            assert(texts(prev_cats)[m] == c@);
                        }
                    }
                } else {
                    proof {
                        let m = choose|m: int| 0 <= m < cats@.len() && #[trigger] texts(cats@)[m] == c@;
                        assert(texts(prev_cats)[m] == c@);
                        assert(texts(prev_cats).contains(c@));
                    }
                }
            },
            None => {},
        }
        norm.push(n);
        proof {
            assert(texts(norm@) =~= texts(prev_norm).push(fs.take(i + 1).last()));
            assert(texts(norm@) =~= fs.take(i + 1));
        }
        i += 1;
    }
    proof {
        assert(fs.take(asset_files@.len() as int) =~= fs);
    }
    let ghost cs = categories(fs);
    let mut code = String::from_str("// dart format width=80\n\n/// GENERATED CODE - DO NOT MODIFY BY HAND\n/// *****************************************************\n///  FlutterGen\n/// *****************************************************\n\n// coverage:ignore-file\n// ignore_for_file: type=lint\n// ignore_for_file: deprecated_member_use,directives_ordering,implicit_dynamic_list_literal,unnecessary_import\n\nimport 'package:flutter/widgets.dart';\n\n");
    let ghost head = code@;
    proof {
        lemma_fold_put_ends(head, cs, category_class_fn(fs));
    }
    let mut j: usize = 0;
    while j < cats.len()
        invariant
            j <= cats@.len(),
            texts(cats@) == cs,
            cs == categories(fs),
            texts(norm@) == fs,
            fs == texts(asset_files@).map_values(|f: Seq<char>| normalized(f)),
            categories_capitalizable(texts(asset_files@)),
            fold_put(code@, cs.skip(j as int), category_class_fn(fs)) == fold_put(head, cs, category_class_fn(fs)),
        decreases cats.len() - j,
    {
        let ghost before = code@;
        let c = cats[j].as_str();
        let ghost cv = c@;
        assert(cs[j as int] == cv);
        // The assets of this category, in order.
        let mut files: Vec<String> = Vec::new();
        let mut k: usize = 0;
        while k < norm.len()
            invariant
                k <= norm@.len(),
                texts(norm@) == fs,
                cv == c@,
                texts(files@) == files_of(fs.take(k as int), cv),
            decreases norm.len() - k,
        {
            proof {
                assert(fs.take(k + 1).drop_last() =~= fs.take(k as int));
                assert(fs.take(k + 1).last() == norm@[k as int]@);
            }
            let ghost prev = files@;
            let ghost x = norm@[k as int]@;
            assert(texts(norm@)[k as int] == x);
            match get_asset_category(norm[k].as_str()) {
                Some(d) => {
                    if str_eq(d.as_str(), c) {
                        let copy = norm[k].clone();
                        assert(copy@ == x);
                        files.push(copy);
                        assert(texts(files@) =~= texts(prev).push(x));
                    } else {
                        assert(asset_category(x) != Some(cv));
                    }
                },
                None => {
                    assert(asset_category(x) != Some(cv));
                },
            }
            k += 1;
        }
        proof {
            assert(fs.take(norm@.len() as int) =~= fs);
            assert(cs.contains(cv));
            lemma_category_has_files(fs, cv);
            lemma_category_of_some_file(fs, cv);
            let m = choose|m: int| 0 <= m < fs.len() && asset_category(#[trigger] fs[m]) == Some(cv);
            assert(asset_category(normalized(texts(asset_files@)[m])) == Some(cv));
        }
        emit_category_class(&mut code, c, &files);
        proof {
            lemma_fold_put_step(before, cs, j as int, category_class_fn(fs));
        }
        j += 1;
    }
    proof {
        lemma_fold_put_ends(code@, cs, category_class_fn(fs));
    }
    code.append("class Assets {\n  const Assets._();\n\n");
    let ghost mid = code@;
    proof {
        lemma_fold_put_ends(mid, cs, category_field_fn());
    }
    let mut j: usize = 0;
    while j < cats.len()
        invariant
            j <= cats@.len(),
            texts(cats@) == cs,
            cs == categories(fs),
            fs == texts(asset_files@).map_values(|f: Seq<char>| normalized(f)),
            categories_capitalizable(texts(asset_files@)),
            fold_put(code@, cs.skip(j as int), category_field_fn()) == fold_put(mid, cs, category_field_fn()),
        decreases cats.len() - j,
    {
        let ghost before = code@;
        let c = cats[j].as_str();
        assert(cs[j as int] == c@);
        proof {
            assert(cs.contains(c@));
            lemma_category_of_some_file(fs, c@);
            let m = choose|m: int| 0 <= m < fs.len() && asset_category(#[trigger] fs[m]) == Some(c@);
            assert(asset_category(normalized(texts(asset_files@)[m])) == Some(c@));
        }
        let cap = capitalize_first(c);
        let mut cn = String::from_str("$Assets");
        cn.append(cap.as_str());
        cn.append("Gen");
        code.append("  static const ");
        code.append(cn.as_str());
        code.append(" ");
        code.append(c);
        code.append(" = ");
        code.append(cn.as_str());
        code.append("();\n");
        proof {
            lemma_fold_put_step(before, cs, j as int, category_field_fn());
        }
        j += 1;
    }
    proof {
        lemma_fold_put_ends(code@, cs, category_field_fn());
    }
    code.append("}\n\n");
    code.append("class AssetGenImage {\n  const AssetGenImage(\n    this._assetName, {\n    this.size,\n    this.flavors = const {},\n    this.animation,\n  });\n\n  final String _assetName;\n\n  final Size? size;\n  final Set<String> flavors;\n  final AssetGenImageAnimation? animation;\n\n  Image image({\n    Key? key,\n    AssetBundle? bundle,\n    ImageFrameBuilder? frameBuilder,\n    ImageErrorWidgetBuilder? errorBuilder,\n    String? semanticLabel,\n    bool excludeFromSemantics = false,\n    double? scale,\n    double? width,\n    double? height,\n    Color? color,\n    Animation<double>? opacity,\n    BlendMode? colorBlendMode,\n    BoxFit? fit,\n    AlignmentGeometry alignment = Alignment.center,\n    ImageRepeat repeat = ImageRepeat.noRepeat,\n    Rect? centerSlice,\n    bool matchTextDirection = false,\n    bool gaplessPlayback = true,\n    bool isAntiAlias = false,\n    String? package,\n    FilterQuality filterQuality = FilterQuality.medium,\n    int? cacheWidth,\n    int? cacheHeight,\n  }) {\n    return Image.asset(\n      _assetName,\n      key: key,\n      bundle: bundle,\n      frameBuilder: frameBuilder,\n      errorBuilder: errorBuilder,\n      semanticLabel: semanticLabel,\n      excludeFromSemantics: excludeFromSemantics,\n      scale: scale,\n      width: width,\n      height: height,\n      color: color,\n      opacity: opacity,\n      colorBlendMode: colorBlendMode,\n      fit: fit,\n      alignment: alignment,\n      repeat: repeat,\n      centerSlice: centerSlice,\n      matchTextDirection: matchTextDirection,\n      gaplessPlayback: gaplessPlayback,\n      isAntiAlias: isAntiAlias,\n      package: package,\n      filterQuality: filterQuality,\n      cacheWidth: cacheWidth,\n      cacheHeight: cacheHeight,\n    );\n  }\n\n  ImageProvider provider({AssetBundle? bundle, String? package}) {\n    return AssetImage(_assetName, bundle: bundle, package: package);\n  }\n\n  String get path => _assetName;\n\n  String get keyName => _assetName;\n}\n\nclass AssetGenImageAnimation {\n  const AssetGenImageAnimation({\n    required this.isAnimation,\n    required this.duration,\n    required this.frames,\n  });\n\n  final bool isAnimation;\n  final Duration duration;\n  final int frames;\n}\n");
    code
}


// ---------------------------------------------------------------------------
// Collecting asset files
// ---------------------------------------------------------------------------

/// `a` comes before or equals `b` in the order of `str`: character by character,
/// by code point, a prefix first. (UTF-8 keeps the order of code points, so
/// this is also the byte order that sorting `String`s uses.)
pub open spec fn text_le(a: Seq<char>, b: Seq<char>) -> bool
    decreases a.len(),
{
    if a.len() == 0 {
        true
    } else if b.len() == 0 {
        false
    } else if a[0] != b[0] {
        (a[0] as int) < (b[0] as int)
    } else {
        text_le(a.drop_first(), b.drop_first())
    }
}

/// Of two texts, one comes before or equals the other.
pub proof fn lemma_text_le_total(a: Seq<char>, b: Seq<char>)
    ensures
        text_le(a, b) || text_le(b, a),
    decreases a.len(),
{
    if a.len() > 0 && b.len() > 0 && a[0] == b[0] {
        lemma_text_le_total(a.drop_first(), b.drop_first());
    }
}

/// Whether `a` comes before or equals `b`, as `text_le` describes.
pub fn text_le_exec(a: &str, b: &str) -> (r: bool)
    ensures
        r == text_le(a@, b@),
{
    let x = str_chars(a);
    let y = str_chars(b);
    let mut i: usize = 0;
    assert(x@.skip(0) =~= x@);
    assert(y@.skip(0) =~= y@);
    while i < x.len() && i < y.len() && x[i] == y[i]
        invariant
            i <= x@.len(),
            i <= y@.len(),
            x@ == a@,
            y@ == b@,
            text_le(x@.skip(i as int), y@.skip(i as int)) == text_le(a@, b@),
        decreases x.len() - i,
    {
        assert(x@.skip(i as int).drop_first() =~= x@.skip(i + 1));
        assert(y@.skip(i as int).drop_first() =~= y@.skip(i + 1));
        i += 1;
    }
    proof {
        assert(x@.skip(0) =~= x@);
        assert(y@.skip(0) =~= y@);
    }
    if i == x.len() {
        true
    } else if i == y.len() {
        false
    } else {
        x[i] < y[i]
    }
}

/// The texts are in order: each comes before or equals the next.
pub open spec fn sorted_texts(s: Seq<Seq<char>>) -> bool {
    forall|i: int| 0 <= i < s.len() - 1 ==> text_le(#[trigger] s[i], s[i + 1])
}

/// Sorts `files` in the order of `str`, keeping every one (`Vec::sort`).
pub fn sort_strings(files: &Vec<String>) -> (r: Vec<String>)
    ensures
        sorted_texts(texts(r@)),
        texts(r@).to_multiset() == texts(files@).to_multiset(),
{
    let mut out: Vec<String> = Vec::new();
    let mut i: usize = 0;
    assert(texts(files@).take(0) =~= Seq::<Seq<char>>::empty());
    assert(texts(out@) =~= Seq::<Seq<char>>::empty());
    while i < files.len()
        invariant
            i <= files@.len(),
            sorted_texts(texts(out@)),
            texts(out@).to_multiset() == texts(files@).take(i as int).to_multiset(),
        decreases files.len() - i,
    {
        let s = files[i].clone();
        assert(s@ == texts(files@)[i as int]);
        let mut p: usize = 0;
        while p < out.len() && text_le_exec(out[p].as_str(), s.as_str())
            invariant
                p <= out@.len(),
                forall|k: int| 0 <= k < p ==> text_le(#[trigger] texts(out@)[k], s@),
            decreases out.len() - p,
        {
            assert(texts(out@)[p as int] == out@[p as int]@);
            p += 1;
        }
        let ghost before = texts(out@);
        proof {
            if p < out@.len() {
                assert(texts(out@)[p as int] == out@[p as int]@);
                lemma_text_le_total(before[p as int], s@);
            }
        }
        out.insert(p, s);
        proof {
            let now = texts(out@);
            assert(now =~= before.insert(p as int, s@));
            assert forall|k: int| 0 <= k < now.len() - 1 implies text_le(#[trigger] now[k], now[k + 1]) by {
                if k < p - 1 {
                    assert(now[k] == before[k] && now[k + 1] == before[k + 1]);
                } else if k == p - 1 {
                    assert(now[k] == before[k] && now[k + 1] == s@);
                } else if k == p {
                    assert(now[k] == s@ && now[k + 1] == before[k]);
                } else {
                    assert(now[k] == before[k - 1] && now[k + 1] == before[k]);
                }
            }
            assert(texts(files@).take(i + 1) =~= texts(files@).take(i as int).push(s@));
            vstd::seq_lib::to_multiset_insert(before, p as int, s@);
            vstd::seq_lib::to_multiset_build(texts(files@).take(i as int), s@);
        }
        i += 1;
    }
    assert(texts(files@).take(files@.len() as int) =~= texts(files@));
    out
}

/// What the file system holds at a listed asset path: a file, a directory with
/// these files (as paths relative to it), or nothing.
pub enum AssetSource {
    File,
    Dir(Vec<String>),
    Missing,
}

/// The asset files that the listed asset path `path` gives: the path itself for a
/// file, `path/relative` for each file of a directory, nothing otherwise; and
/// nothing for a path outside `assets/`.
pub open spec fn listed_files(path: Seq<char>, source: AssetSource) -> Seq<Seq<char>> {
    if !starts_with(path, "assets/"@) {
        Seq::empty()
    } else {
        match source {
            AssetSource::File => seq![path],
            AssetSource::Dir(rels) => texts(rels@).map_values(|r: Seq<char>| path + "/"@ + r),
            AssetSource::Missing => Seq::empty(),
        }
    }
}

/// The asset files of all listed paths, in order.
pub open spec fn all_listed_files(paths: Seq<String>, sources: Seq<AssetSource>) -> Seq<Seq<char>>
    decreases paths.len(),
{
    if paths.len() == 0 || sources.len() == 0 {
        Seq::empty()
    } else {
        all_listed_files(paths.drop_last(), sources.drop_last()) + listed_files(paths.last()@, sources.last())
    }
}

/// `f` starts with one of the listed `paths` that lies under `assets/`.
pub open spec fn from_listed_path(f: Seq<char>, paths: Seq<String>) -> bool {
    exists|i: int|
        0 <= i < paths.len() && starts_with(#[trigger] paths[i]@, "assets/"@) && starts_with(f, paths[i]@)
}

/// A text starts with any text it is made by extending.
proof fn lemma_starts_with_extended(p: Seq<char>, x: Seq<char>)
    ensures
        starts_with(p + x, p),
{
    assert((p + x).subrange(0, p.len() as int) =~= p);
}

/// Every asset file that the listed paths give starts with one of them, which
/// lies under `assets/`.
proof fn lemma_listed_files_from_paths(paths: Seq<String>, sources: Seq<AssetSource>)
    ensures
        forall|k: int|
            0 <= k < all_listed_files(paths, sources).len() ==> from_listed_path(
                #[trigger] all_listed_files(paths, sources)[k],
                paths,
            ),
    decreases paths.len(),
{
    if paths.len() > 0 && sources.len() > 0 {
        let init = paths.drop_last();
        lemma_listed_files_from_paths(init, sources.drop_last());
        let prev = all_listed_files(init, sources.drop_last());
        let path = paths.last()@;
        let here = listed_files(path, sources.last());
        let all = all_listed_files(paths, sources);
        assert(all == prev + here);
        assert forall|k: int| 0 <= k < all.len() implies from_listed_path(#[trigger] all[k], paths) by {
            if k < prev.len() {
                assert(all[k] == prev[k]);
                assert(from_listed_path(prev[k], init));
                let i = choose|i: int|
                    0 <= i < init.len() && starts_with(#[trigger] init[i]@, "assets/"@) && starts_with(prev[k], init[i]@);
                assert(paths[i] == init[i]);
            } else {
                let j = k - prev.len();
                assert(all[k] == here[j]);
                assert(paths[paths.len() - 1]@ == path);
                match sources.last() {
                    AssetSource::File => {
                        assert(here[j] == path);
                        assert(path + Seq::<char>::empty() =~= path);
                        lemma_starts_with_extended(path, Seq::empty());
                    },
                    AssetSource::Dir(rels) => {
                        let r = texts(rels@)[j];
                        assert(here[j] == path + "/"@ + r);
                        assert(path + "/"@ + r =~= path + ("/"@ + r));
                        lemma_starts_with_extended(path, "/"@ + r);
                    },
                    AssetSource::Missing => {},
                }
            }
        }
    }
}

/// The asset files of the paths listed in `pubspec.yaml`, sorted; `sources[i]`
/// tells what the file system holds at `asset_paths[i]`. Each starts with one
/// of the listed paths, under `assets/`.
pub fn collect_asset_files(asset_paths: &[String], sources: &[AssetSource]) -> (r: Vec<String>)
    requires
        asset_paths@.len() == sources@.len(),
    ensures
        sorted_texts(texts(r@)),
        texts(r@).to_multiset() == all_listed_files(asset_paths@, sources@).to_multiset(),
        forall|k: int| 0 <= k < r@.len() ==> from_listed_path(#[trigger] r@[k]@, asset_paths@),
{
    let mut files: Vec<String> = Vec::new();
    let mut i: usize = 0;
    assert(texts(files@) =~= Seq::<Seq<char>>::empty());
    while i < asset_paths.len()
        invariant
            i <= asset_paths@.len(),
            asset_paths@.len() == sources@.len(),
            texts(files@) == all_listed_files(asset_paths@.take(i as int), sources@.take(i as int)),
        decreases asset_paths.len() - i,
    {
        let path = asset_paths[i].as_str();
        let ghost before = texts(files@);
        proof {
            assert(asset_paths@.take(i + 1).drop_last() =~= asset_paths@.take(i as int));
            assert(sources@.take(i + 1).drop_last() =~= sources@.take(i as int));
            assert(asset_paths@.take(i + 1).last() == asset_paths@[i as int]);
            assert(sources@.take(i + 1).last() == sources@[i as int]);
        }
        if str_starts_with(path, "assets/") {
            match &sources[i] {
                AssetSource::File => {
                    files.push(String::from_str(path));
                    assert(texts(files@) =~= before + seq![path@]);
                },
                AssetSource::Dir(rels) => {
                    let ghost listed = texts(rels@).map_values(|r: Seq<char>| path@ + "/"@ + r);
                    let mut k: usize = 0;
                    while k < rels.len()
                        invariant
                            k <= rels@.len(),
                            listed == texts(rels@).map_values(|r: Seq<char>| path@ + "/"@ + r),
                            texts(files@) == before + listed.take(k as int),
                        decreases rels.len() - k,
                    {
                        let mut f = String::from_str(path);
                        f.append("/");
                        f.append(rels[k].as_str());
                        let ghost b2 = texts(files@);
                        files.push(f);
                        assert(texts(rels@)[k as int] == rels@[k as int]@);
                        assert(listed[k as int] == f@);
                        assert(texts(files@) =~= b2.push(f@));
                        assert(listed.take(k + 1) =~= listed.take(k as int).push(f@));
                        assert(texts(files@) =~= before + listed.take(k + 1));
                        k += 1;
                    }
                    assert(listed.take(rels@.len() as int) =~= listed);
                },
                AssetSource::Missing => {
                    assert(texts(files@) =~= before + Seq::<Seq<char>>::empty());
                },
            }
        } else {
            assert(texts(files@) =~= before + Seq::<Seq<char>>::empty());
        }
        i += 1;
    }
    assert(asset_paths@.take(asset_paths@.len() as int) =~= asset_paths@);
    assert(sources@.take(sources@.len() as int) =~= sources@);
    let r = sort_strings(&files);
    proof {
        let all = all_listed_files(asset_paths@, sources@);
        lemma_listed_files_from_paths(asset_paths@, sources@);
        assert forall|k: int| 0 <= k < r@.len() implies from_listed_path(#[trigger] r@[k]@, asset_paths@) by {
            let x = texts(r@)[k];
            assert(x == r@[k]@);
            assert(texts(r@).contains(x));
            vstd::seq_lib::to_multiset_contains(texts(r@), x);
            vstd::seq_lib::to_multiset_contains(all, x);
            let j = choose|j: int| 0 <= j < all.len() && all[j] == x;
            assert(from_listed_path(all[j], asset_paths@));
        }
    }
    r
}

/// The file that the asset class is written to in the directory `output_dir`:
/// `assets.gen.dart` there, with `//` read as `/`.
pub fn assets_output_file(output_dir: &str) -> (r: String)
    ensures
        r@ == replace_all(output_dir@ + "/assets.gen.dart"@, "//"@, "/"@),
{
    proof {
        reveal_strlit("//");
    }
    let joined = String::from_str(output_dir).concat("/assets.gen.dart");
    replace_str(joined.as_str(), "//", "/")
}

/// Whether `generate_dart_assets_class` may not be called on `asset_files`: a
/// category begins with a character that cannot be capitalized that way.
pub fn assets_would_panic(asset_files: &[String]) -> (r: bool)
    ensures
        r == !categories_capitalizable(texts(asset_files@)),
{
    let mut i: usize = 0;
    while i < asset_files.len()
        invariant
            i <= asset_files@.len(),
            forall|j: int|
                0 <= j < i ==> match #[trigger] asset_category(normalized(texts(asset_files@)[j])) {
                    Some(c) => capitalizable(c),
                    None => true,
                },
        decreases asset_files.len() - i,
    {
        proof {
            reveal_strlit("//");
        }
        let n = replace_str(asset_files[i].as_str(), "//", "/");
        assert(texts(asset_files@)[i as int] == asset_files@[i as int]@);
        match get_asset_category(n.as_str()) {
            Some(c) => {
                let cs = str_chars(c.as_str());
                if cs.len() > 0 && (cs[0] as u32) >= 128 {
                    assert(!capitalizable(c@));
                    assert(asset_category(normalized(texts(asset_files@)[i as int])) == Some(c@));
                    return true;
                }
            },
            None => {},
        }
        i += 1;
    }
    false
}

// ---------------------------------------------------------------------------
// Laws
// ---------------------------------------------------------------------------

/// Each category gets one class: the categories of the assets are distinct.
pub proof fn lemma_categories_distinct(fs: Seq<Seq<char>>)
    ensures
        forall|i: int, j: int| 0 <= i < j < categories(fs).len() ==> categories(fs)[i] != categories(fs)[j],
    decreases fs.len(),
{
    if fs.len() > 0 {
        lemma_categories_distinct(fs.drop_last());
        let prev = categories(fs.drop_last());
        match asset_category(fs.last()) {
            Some(c) => {
                if !prev.contains(c) {
                    let r = prev.push(c);
                    assert forall|i: int, j: int| 0 <= i < j < r.len() implies r[i] != r[j] by {
                        if j == prev.len() {
                            if r[i] == r[j] {
                                assert(prev[i] == c);
                                assert(prev.contains(c));
                            }
                        } else {
                            assert(r[i] == prev[i] && r[j] == prev[j]);
                        }
                    }
                }
            },
            None => {},
        }
    }
}

/// Every asset with a category gets a class: its category is among the categories.
pub proof fn lemma_every_category_listed(fs: Seq<Seq<char>>, i: int)
    requires
        0 <= i < fs.len(),
        asset_category(fs[i]) is Some,
    ensures
        categories(fs).contains(asset_category(fs[i])->0),
    decreases fs.len(),
{
    let c = asset_category(fs[i])->0;
    let prev = categories(fs.drop_last());
    if i < fs.len() - 1 {
        assert(fs.drop_last()[i] == fs[i]);
        lemma_every_category_listed(fs.drop_last(), i);
        let k = choose|k: int| 0 <= k < prev.len() && prev[k] == c;
        match asset_category(fs.last()) {
            Some(d) => {
                if !prev.contains(d) {
                    assert(prev.push(d)[k] == c);
                }
            },
            None => {},
        }
    } else {
        assert(fs.last() == fs[i]);
        if !prev.contains(c) {
            assert(prev.push(c)[prev.len() as int] == c);
        }
    }
}

/// Every asset with a category is listed in the class of its category.
pub proof fn lemma_asset_in_its_class(fs: Seq<Seq<char>>, i: int)
    requires
        0 <= i < fs.len(),
        asset_category(fs[i]) is Some,
    ensures
        files_of(fs, asset_category(fs[i])->0).contains(fs[i]),
    decreases fs.len(),
{
    let c = asset_category(fs[i])->0;
    if i < fs.len() - 1 {
        assert(fs.drop_last()[i] == fs[i]);
        lemma_asset_in_its_class(fs.drop_last(), i);
        let prev = files_of(fs.drop_last(), c);
        let k = choose|k: int| 0 <= k < prev.len() && prev[k] == fs[i];
        if asset_category(fs.last()) == Some(c) {
            assert(prev.push(fs.last())[k] == fs[i]);
        }
    } else {
        let prev = files_of(fs.drop_last(), c);
        assert(fs.last() == fs[i]);
        assert(prev.push(fs.last())[prev.len() as int] == fs[i]);
    }
}


/// The line that documents the path of an asset in its category class.
pub open spec fn file_path_line(f: Seq<char>) -> Seq<char> {
    "  /// File path: "@ + f + "\n"@
}

/// The line that opens the class of the category `c`.
pub open spec fn category_class_line(c: Seq<char>) -> Seq<char> {
    "class "@ + category_class(c) + " {\n"@
}

/// Writing the getters and names of assets only appends to the text.
proof fn lemma_asset_writers_extend()
    ensures
        extends(asset_getter_fn()),
        extends(next_name_fn()),
        extends(category_field_fn()),
{
    reveal(keeps);
    assert forall|o: Seq<char>, f: Seq<char>| #[trigger] keeps(o, asset_getter_fn()(o, f)) by {
        assert(asset_getter_fn()(o, f) == put_asset_getter(o, f));
    }
    assert forall|o: Seq<char>, f: Seq<char>| #[trigger] keeps(o, next_name_fn()(o, f)) by {}
    assert forall|o: Seq<char>, c: Seq<char>| #[trigger] keeps(o, category_field_fn()(o, c)) by {}
}

/// The class of a category keeps the text before it, opens with its class line,
/// and documents the path of each of its assets.
proof fn lemma_category_class_text(o: Seq<char>, c: Seq<char>, fs: Seq<Seq<char>>)
    ensures
        keeps(o, put_category_class(o, c, fs)),
        contains(put_category_class(o, c, fs), category_class_line(c)),
        forall|k: int| 0 <= k < fs.len() ==> contains(put_category_class(o, c, fs), file_path_line(#[trigger] fs[k])),
{
    lemma_asset_writers_extend();
    let cn = category_class(c);
    let start = o + "class "@ + cn + " {\n  const "@ + cn + "();\n\n"@;
    let o1 = fold_put(start, fs, asset_getter_fn());
    let tail = if fs.len() > 0 && asset_type(fs[0]) == "image"@ {
        "  List<AssetGenImage> get values => ["@
    } else {
        "  List<String> get values => ["@
    };
    let o2 = o1 + "\n  /// List of all assets\n"@ + if asset_type(fs[0]) == "image"@ {
        "  List<AssetGenImage> get values => ["@
    } else {
        "  List<String> get values => ["@
    };
    let o3 = put_name_list(o2, fs);
    let r = o3 + "];\n}\n\n"@;
    assert(r == put_category_class(o, c, fs));
    assert(keeps(o, start) && keeps(o1, o2) && keeps(o3, r)) by {
        reveal(keeps);
    }
    lemma_fold_put_keeps(start, fs, asset_getter_fn());
    if fs.len() > 0 {
        lemma_fold_put_keeps(o2 + constant_name(fs[0]), fs.skip(1), next_name_fn());
        assert(keeps(o2, o2 + constant_name(fs[0]))) by {
            reveal(keeps);
        }
        lemma_keeps_trans(o2, o2 + constant_name(fs[0]), o3);
    } else {
        assert(keeps(o2, o3)) by {
            reveal(keeps);
        }
    }
    lemma_keeps_trans(o, start, o1);
    lemma_keeps_trans(o, o1, o2);
    lemma_keeps_trans(o, o2, o3);
    lemma_keeps_trans(o, o3, r);
    lemma_keeps_trans(start, o1, o2);
    lemma_keeps_trans(start, o2, o3);
    lemma_keeps_trans(start, o3, r);
    lemma_keeps_trans(o1, o2, o3);
    lemma_keeps_trans(o1, o3, r);
    reveal_strlit(" {\n  const ");
    reveal_strlit(" {\n");
    let line = category_class_line(c);
    assert(start.subrange(o.len() as int, (o.len() + line.len()) as int) =~= line);
    assert(is_match_at(start, line, o.len() as int));
    lemma_contains_keeps(start, r, line);
    assert forall|k: int| 0 <= k < fs.len() implies contains(r, file_path_line(#[trigger] fs[k])) by {
        let p = file_path_line(fs[k]);
        assert forall|q: Seq<char>| #[trigger] contains(asset_getter_fn()(q, fs[k]), p) by {
            let g = asset_getter_fn()(q, fs[k]);
            assert(g == put_asset_getter(q, fs[k]));
            assert(g.subrange(q.len() as int, (q.len() + p.len()) as int) =~= p);
            assert(is_match_at(g, p, q.len() as int));
        }
        lemma_fold_put_contains(start, fs, asset_getter_fn(), k, p);
        lemma_contains_keeps(o1, r, p);
    }
}

/// Writing the classes of the categories only appends to the text.
proof fn lemma_category_classes_extend(fs: Seq<Seq<char>>)
    ensures
        extends(category_class_fn(fs)),
{
    reveal(keeps);
    assert forall|o: Seq<char>, c: Seq<char>| #[trigger] keeps(o, category_class_fn(fs)(o, c)) by {
        lemma_category_class_text(o, c, files_of(fs, c));
        reveal(keeps);
    }
}

/// `assets.gen.dart` always ends with the `AssetGenImageAnimation` class, whose
/// last field is `frames`.
pub proof fn lemma_assets_text_ends(files: Seq<Seq<char>>)
    ensures
        ends_with(dart_assets_text(files), "  final int frames;\n}\n"@),
{
    reveal_strlit("class AssetGenImage {\n  const AssetGenImage(\n    this._assetName, {\n    this.size,\n    this.flavors = const {},\n    this.animation,\n  });\n\n  final String _assetName;\n\n  final Size? size;\n  final Set<String> flavors;\n  final AssetGenImageAnimation? animation;\n\n  Image image({\n    Key? key,\n    AssetBundle? bundle,\n    ImageFrameBuilder? frameBuilder,\n    ImageErrorWidgetBuilder? errorBuilder,\n    String? semanticLabel,\n    bool excludeFromSemantics = false,\n    double? scale,\n    double? width,\n    double? height,\n    Color? color,\n    Animation<double>? opacity,\n    BlendMode? colorBlendMode,\n    BoxFit? fit,\n    AlignmentGeometry alignment = Alignment.center,\n    ImageRepeat repeat = ImageRepeat.noRepeat,\n    Rect? centerSlice,\n    bool matchTextDirection = false,\n    bool gaplessPlayback = true,\n    bool isAntiAlias = false,\n    String? package,\n    FilterQuality filterQuality = FilterQuality.medium,\n    int? cacheWidth,\n    int? cacheHeight,\n  }) {\n    return Image.asset(\n      _assetName,\n      key: key,\n      bundle: bundle,\n      frameBuilder: frameBuilder,\n      errorBuilder: errorBuilder,\n      semanticLabel: semanticLabel,\n      excludeFromSemantics: excludeFromSemantics,\n      scale: scale,\n      width: width,\n      height: height,\n      color: color,\n      opacity: opacity,\n      colorBlendMode: colorBlendMode,\n      fit: fit,\n      alignment: alignment,\n      repeat: repeat,\n      centerSlice: centerSlice,\n      matchTextDirection: matchTextDirection,\n      gaplessPlayback: gaplessPlayback,\n      isAntiAlias: isAntiAlias,\n      package: package,\n      filterQuality: filterQuality,\n      cacheWidth: cacheWidth,\n      cacheHeight: cacheHeight,\n    );\n  }\n\n  ImageProvider provider({AssetBundle? bundle, String? package}) {\n    return AssetImage(_assetName, bundle: bundle, package: package);\n  }\n\n  String get path => _assetName;\n\n  String get keyName => _assetName;\n}\n\nclass AssetGenImageAnimation {\n  const AssetGenImageAnimation({\n    required this.isAnimation,\n    required this.duration,\n    required this.frames,\n  });\n\n  final bool isAnimation;\n  final Duration duration;\n  final int frames;\n}\n");
    reveal_strlit("  final int frames;\n}\n");
    let t = dart_assets_text(files);
    let tl = assets_file_tail();
    assert(t.subrange(t.len() - 22, t.len() as int) =~= tl.subrange(tl.len() - 22, tl.len() as int));
    assert(tl.subrange(tl.len() - 22, tl.len() as int) =~= "  final int frames;\n}\n"@);
}

/// For each asset with a category, `assets.gen.dart` holds the class of that
/// category and the line that documents the asset's path.
pub proof fn lemma_assets_text_lists_asset(files: Seq<Seq<char>>, i: int)
    requires
        0 <= i < files.len(),
        asset_category(normalized(files[i])) is Some,
    ensures
        contains(dart_assets_text(files), file_path_line(normalized(files[i]))),
        contains(dart_assets_text(files), category_class_line(asset_category(normalized(files[i]))->0)),
{
    let fs = files.map_values(|f: Seq<char>| normalized(f));
    assert(fs[i] == normalized(files[i]));
    let c = asset_category(fs[i])->0;
    let cs = categories(fs);
    lemma_every_category_listed(fs, i);
    lemma_asset_in_its_class(fs, i);
    let j = choose|j: int| 0 <= j < cs.len() && cs[j] == c;
    let mine = files_of(fs, c);
    let k = choose|k: int| 0 <= k < mine.len() && mine[k] == fs[i];
    lemma_category_classes_extend(fs);
    lemma_asset_writers_extend();
    let line = file_path_line(fs[i]);
    let cline = category_class_line(c);
    assert forall|o: Seq<char>| #[trigger] contains(category_class_fn(fs)(o, cs[j]), line) by {
        lemma_category_class_text(o, c, mine);
        assert(contains(put_category_class(o, c, mine), file_path_line(mine[k])));
    }
    assert forall|o: Seq<char>| #[trigger] contains(category_class_fn(fs)(o, cs[j]), cline) by {
        lemma_category_class_text(o, c, mine);
    }
    let classes = fold_put(assets_file_head(), cs, category_class_fn(fs));
    lemma_fold_put_contains(assets_file_head(), cs, category_class_fn(fs), j, line);
    lemma_fold_put_contains(assets_file_head(), cs, category_class_fn(fs), j, cline);
    let b = classes + "class Assets {\n  const Assets._();\n\n"@;
    let main = fold_put(b, cs, category_field_fn());
    let t = main + "}\n\n"@ + assets_file_tail();
    assert(t == dart_assets_text(files));
    assert(keeps(classes, b) && keeps(main, t)) by {
        reveal(keeps);
    }
    lemma_fold_put_keeps(b, cs, category_field_fn());
    lemma_keeps_trans(classes, b, main);
    lemma_keeps_trans(classes, main, t);
    lemma_contains_keeps(classes, t, line);
    lemma_contains_keeps(classes, t, cline);
}


/// Every text comes before or equals itself.
proof fn lemma_text_le_refl(a: Seq<char>)
    ensures
        text_le(a, a),
    decreases a.len(),
{
    if a.len() > 0 {
        lemma_text_le_refl(a.drop_first());
    }
}

/// Two texts each before or equal to the other are equal.
proof fn lemma_text_le_antisym(a: Seq<char>, b: Seq<char>)
    requires
        text_le(a, b),
        text_le(b, a),
    ensures
        a == b,
    decreases a.len(),
{
    if a.len() == 0 {
        assert(b =~= a);
    } else {
        assert(b.len() > 0);
        assert(a[0] == b[0]);
        lemma_text_le_antisym(a.drop_first(), b.drop_first());
        assert(a =~= b) by {
            assert forall|i: int| 0 <= i < a.len() implies a[i] == b[i] by {
                if i > 0 {
                    assert(a[i] == a.drop_first()[i - 1]);
                    assert(b[i] == b.drop_first()[i - 1]);
                }
            }
        }
    }
}

/// The order of texts is transitive.
proof fn lemma_text_le_trans(a: Seq<char>, b: Seq<char>, c: Seq<char>)
    requires
        text_le(a, b),
        text_le(b, c),
    ensures
        text_le(a, c),
    decreases a.len(),
{
    if a.len() > 0 && b.len() > 0 && c.len() > 0 && a[0] == b[0] && b[0] == c[0] {
        lemma_text_le_trans(a.drop_first(), b.drop_first(), c.drop_first());
    }
}

/// The first of sorted texts comes before or equals each of them.
proof fn lemma_sorted_first_le(s: Seq<Seq<char>>, i: int)
    requires
        sorted_texts(s),
        0 <= i < s.len(),
    ensures
        text_le(s[0], s[i]),
    decreases i,
{
    if i == 0 {
        lemma_text_le_refl(s[0]);
    } else {
        lemma_sorted_first_le(s, i - 1);
        assert(text_le(s[i - 1], s[i]));
        lemma_text_le_trans(s[0], s[i - 1], s[i]);
    }
}

/// Two sorted sequences of texts that hold the same texts are equal.
pub proof fn lemma_sorted_texts_unique(a: Seq<Seq<char>>, b: Seq<Seq<char>>)
    requires
        sorted_texts(a),
        sorted_texts(b),
        a.to_multiset() == b.to_multiset(),
    ensures
        a == b,
    decreases a.len(),
{
    a.to_multiset_ensures();
    b.to_multiset_ensures();
    if a.len() == 0 {
        assert(b =~= a);
    } else {
        assert(b.len() > 0);
        vstd::seq_lib::to_multiset_contains(a, a[0]);
        vstd::seq_lib::to_multiset_contains(b, a[0]);
        vstd::seq_lib::to_multiset_contains(b, b[0]);
        vstd::seq_lib::to_multiset_contains(a, b[0]);
        assert(a.contains(a[0]));
        assert(b.contains(b[0]));
        let j = choose|j: int| 0 <= j < b.len() && b[j] == a[0];
        let k = choose|k: int| 0 <= k < a.len() && a[k] == b[0];
        lemma_sorted_first_le(b, j);
        lemma_sorted_first_le(a, k);
        lemma_text_le_antisym(a[0], b[0]);
        assert(a.remove(0) =~= a.drop_first());
        assert(b.remove(0) =~= b.drop_first());
        assert(a.drop_first().to_multiset() =~= b.drop_first().to_multiset());
        assert(sorted_texts(a.drop_first())) by {
            assert forall|i: int| 0 <= i < a.drop_first().len() - 1 implies text_le(
                #[trigger] a.drop_first()[i],
                a.drop_first()[i + 1],
            ) by {
                assert(text_le(a[i + 1], a[i + 2]));
            }
        }
        assert(sorted_texts(b.drop_first())) by {
            assert forall|i: int| 0 <= i < b.drop_first().len() - 1 implies text_le(
                #[trigger] b.drop_first()[i],
                b.drop_first()[i + 1],
            ) by {
                assert(text_le(b[i + 1], b[i + 2]));
            }
        }
        lemma_sorted_texts_unique(a.drop_first(), b.drop_first());
        assert(a =~= b) by {
            assert forall|i: int| 0 <= i < a.len() implies a[i] == b[i] by {
                if i > 0 {
                    assert(a[i] == a.drop_first()[i - 1]);
                    assert(b[i] == b.drop_first()[i - 1]);
                }
            }
        }
    }
}

/// The asset files collected from listed paths are determined by those paths and
/// what the file system holds at them: any two sorted lists of the same files
/// are equal.
pub proof fn lemma_collected_files_unique(
    paths: Seq<String>,
    sources: Seq<AssetSource>,
    a: Seq<Seq<char>>,
    b: Seq<Seq<char>>,
)
    requires
        sorted_texts(a),
        sorted_texts(b),
        a.to_multiset() == all_listed_files(paths, sources).to_multiset(),
        b.to_multiset() == all_listed_files(paths, sources).to_multiset(),
    ensures
        a == b,
{
    lemma_sorted_texts_unique(a, b);
}

} // verus!
