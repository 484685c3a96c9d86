//! Reading the active wallpaper's identifier out of the configuration.
use vstd::prelude::*;
use vstd::string::*;
use crate::json::{JsonNode, NodeModel, json_node_of, member_of, read_json, find_member};

verus! {

/// The path segment after which a wallpaper's identifier starts: the
/// wallpaper engine's application ID in its workshop content directory.
pub const ANCHOR: &'static str = "431960/";

/// Why no identifier could be read from the configuration.
#[derive(Clone, Copy, Debug, PartialEq, Eq, Structural)]
pub enum ResolveError {
    /// The configuration text is not JSON.
    ConfigurationUnparsable,
    /// A key on the lookup path is missing, the value found is not a string,
    /// or no identifier can be cut out of it.
    IdentifierNotResolvable,
}

/// `p` stands in `s` at index `i`.
pub open spec fn occurs_at(s: Seq<char>, p: Seq<char>, i: int) -> bool {
    0 <= i && i + p.len() <= s.len() && s.subrange(i, i + p.len()) == p
}

/// The index at which `p` first stands in `s`, if it does.
#[verifier::opaque]
pub open spec fn first_occurrence(s: Seq<char>, p: Seq<char>) -> Option<int> {
    if exists|i: int| occurs_at(s, p, i) {
        Some(choose|i: int| occurs_at(s, p, i) && forall|j: int| 0 <= j < i ==> !occurs_at(s, p, j))
    } else {
        None
    }
}

/// `s` up to its first `/`, or the whole of `s` where it holds none.
pub open spec fn first_segment(s: Seq<char>) -> Seq<char> {
    match first_occurrence(s, seq!['/']) {
        Some(k) => s.subrange(0, k),
        None => s,
    }
}

/// The identifier in a wallpaper's file path: the first segment after the
/// first occurrence of the anchor, where that segment is not empty.
pub open spec fn identifier_of_path(path: Seq<char>) -> Option<Seq<char>> {
    match first_occurrence(path, ANCHOR@) {
        Some(i) => {
            let seg = first_segment(path.subrange(i + ANCHOR@.len(), path.len() as int));
            if seg.len() > 0 {
                Some(seg)
            } else {
                None
            }
        },
        None => None,
    }
}

/// The keys that lead from the document's root to the file of the wallpaper
/// selected on the first monitor.
pub open spec fn selection_keys(user: Seq<char>) -> Seq<Seq<char>> {
    seq![user, "general"@, "wallpaperconfig"@, "selectedwallpapers"@, "Monitor0"@, "file"@]
}

/// The JSON text of the member `key` of the object that `text` holds.
pub open spec fn member_at(text: Seq<char>, key: Seq<char>) -> Option<Seq<char>> {
    match json_node_of(text) {
        Some(NodeModel::Object(members)) => member_of(members, key),
        _ => None,
    }
}

/// The JSON text reached from `text` by following `keys`, one object member
/// at a time.
pub open spec fn walk(text: Seq<char>, keys: Seq<Seq<char>>) -> Option<Seq<char>>
    decreases keys.len(),
{
    if keys.len() == 0 {
        Some(text)
    } else {
        match member_at(text, keys[0]) {
            Some(t) => walk(t, keys.drop_first()),
            None => None,
        }
    }
}

/// The string that the JSON text `text` holds, if it holds one.
pub open spec fn string_of(text: Seq<char>) -> Option<Seq<char>> {
    match json_node_of(text) {
        Some(NodeModel::Text(s)) => Some(s),
        _ => None,
    }
}

/// The string found at the end of `keys`, if the lookup reaches one.
pub open spec fn string_at(text: Seq<char>, keys: Seq<Seq<char>>) -> Option<Seq<char>> {
    match walk(text, keys) {
        Some(t) => string_of(t),
        None => None,
    }
}

/// The identifier of the wallpaper that `user` has selected, as read from
/// the configuration text `doc`.
pub open spec fn resolved(doc: Seq<char>, user: Seq<char>) -> Result<Seq<char>, ResolveError> {
    if json_node_of(doc) is None {
        Err(ResolveError::ConfigurationUnparsable)
    } else {
        match string_at(doc, selection_keys(user)) {
            Some(path) => match identifier_of_path(path) {
                Some(id) => Ok(id),
                None => Err(ResolveError::IdentifierNotResolvable),
            },
            None => Err(ResolveError::IdentifierNotResolvable),
        }
    }
}

/// The characters of `s`.
pub fn chars_of(s: &str) -> (r: Vec<char>)
    ensures
        r@ == s@,
{
    let n = s.unicode_len();
    let mut r: Vec<char> = Vec::new();
    let mut i: usize = 0;
    while i < n
        invariant
            n == s@.len(),
            i <= n,
            r@ == s@.subrange(0, i as int),
        decreases n - i,
    {
        r.push(s.get_char(i));
        i = i + 1;
    }
    assert(r@ =~= s@);
    r
}

/// Whether `p` stands in `s` at index `i`.
fn matches_at(s: &Vec<char>, p: &Vec<char>, i: usize) -> (r: bool)
    requires
        i + p@.len() <= s@.len(),
        s@.len() <= usize::MAX,
    ensures
        r == occurs_at(s@, p@, i as int),
{
    let mut k: usize = 0;
    while k < p.len()
        invariant
            i + p@.len() <= s@.len(),
            s@.len() <= usize::MAX,
            k <= p@.len(),
            forall|j: int| 0 <= j < k ==> s@[i + j] == p@[j],
        decreases p@.len() - k,
    {
        if s[i + k] != p[k] {
            assert(s@.subrange(i as int, i + p@.len())[k as int] != p@[k as int]);
            return false;
        }
        k = k + 1;
    }
    assert(s@.subrange(i as int, i + p@.len()) =~= p@);
    true
}

/// The index at which `p` first stands in `s`.
pub fn find(s: &Vec<char>, p: &Vec<char>) -> (r: Option<usize>)
    ensures
        r matches Some(i) ==> first_occurrence(s@, p@) == Some(i as int) && occurs_at(s@, p@, i as int),
        r is None ==> first_occurrence(s@, p@) is None,
{
    reveal(first_occurrence);
    let n = s.len();
    if p.len() > n {
        return None;
    }
    if p.len() == 0 {
        proof {
            assert(s@.subrange(0, 0) =~= p@);
            assert(occurs_at(s@, p@, 0));
            let k = choose|k: int|
                occurs_at(s@, p@, k) && forall|j: int| 0 <= j < k ==> !occurs_at(s@, p@, j);
            assert(occurs_at(s@, p@, k) && forall|j: int| 0 <= j < k ==> !occurs_at(s@, p@, j)) by {
                assert(occurs_at(s@, p@, 0));
            }
            assert(k == 0);
        }
        return Some(0);
    }
    let end = n - p.len() + 1;
    let mut i: usize = 0;
    while i < end
        invariant
            n == s@.len(),
            end + p@.len() == s@.len() + 1,
            i <= end,
            forall|j: int| 0 <= j < i ==> !occurs_at(s@, p@, j),
        decreases end - i,
    {
        if matches_at(s, p, i) {
            proof {
                reveal(first_occurrence);
                let k = choose|k: int|
                    occurs_at(s@, p@, k) && forall|j: int| 0 <= j < k ==> !occurs_at(s@, p@, j);
                assert(occurs_at(s@, p@, k) && forall|j: int| 0 <= j < k ==> !occurs_at(s@, p@, j)) by {
                    assert(occurs_at(s@, p@, i as int));
                }
                assert(k == i as int);
            }
            return Some(i);
        }
        i = i + 1;
    }
    assert(forall|j: int| !occurs_at(s@, p@, j));
    None
}

/// `s` up to its first `/`.
pub fn first_segment_of(s: &str) -> (r: String)
    ensures
        r@ == first_segment(s@),
{
    let chars = chars_of(s);
    let slash = chars_of("/");
    proof {
        reveal_strlit("/");
        assert(slash@ =~= seq!['/']);
    }
    match find(&chars, &slash) {
        Some(k) => s.substring_char(0, k).to_owned(),
        None => s.to_owned(),
    }
}

/// The identifier in a wallpaper's file path, if one can be cut out of it.
pub fn identifier_from_path(path: &str) -> (r: Option<String>)
    ensures
        r matches Some(id) ==> identifier_of_path(path@) == Some(id@),
        r is None ==> identifier_of_path(path@) is None,
{
    let chars = chars_of(path);
    let anchor = chars_of(ANCHOR);
    let n = chars.len();
    let start = match find(&chars, &anchor) {
        Some(i) => i + anchor.len(),
        None => return None,
    };
    let segment = first_segment_of(path.substring_char(start, n));
    if segment.unicode_len() == 0 {
        return None;
    }
    Some(segment)
}

/// The member `key` of the object in `text`: an error where `text` is not
/// JSON, `None` where it holds no object or the object has no such member.
pub fn member_text(text: &str, key: &str) -> (r: Result<Option<String>, ResolveError>)
    ensures
        r is Err <==> json_node_of(text@) is None,
        r is Err ==> r == Err::<Option<String>, ResolveError>(ResolveError::ConfigurationUnparsable),
        r matches Ok(Some(t)) ==> member_at(text@, key@) == Some(t@),
        r matches Ok(None) ==> member_at(text@, key@) is None,
{
    match read_json(text) {
        Ok(JsonNode::Object(members)) => Ok(find_member(&members, key)),
        Ok(_) => Ok(None),
        Err(_) => Err(ResolveError::ConfigurationUnparsable),
    }
}

/// The string that the JSON text `text` holds, if it holds one.
pub fn string_text(text: &str) -> (r: Option<String>)
    ensures
        r matches Some(s) ==> string_of(text@) == Some(s@),
        r is None ==> string_of(text@) is None,
{
    match read_json(text) {
        Ok(JsonNode::Text(s)) => Some(s),
        _ => None,
    }
}

/// Reads the identifier of the wallpaper that `username` has selected on the
/// first monitor out of the wallpaper engine's configuration text.
pub fn resolve(document: &str, username: &str) -> (r: Result<String, ResolveError>)
    ensures
        r matches Ok(id) ==> resolved(document@, username@) == Ok::<Seq<char>, ResolveError>(id@),
        r matches Err(e) ==> resolved(document@, username@) == Err::<Seq<char>, ResolveError>(e),
{
    let keys: Vec<String> = vec![
        username.to_owned(),
        "general".to_owned(),
        "wallpaperconfig".to_owned(),
        "selectedwallpapers".to_owned(),
        "Monitor0".to_owned(),
        "file".to_owned(),
    ];
    let ghost wanted = selection_keys(username@);
    assert(wanted.subrange(0, 6) =~= wanted);
    assert(forall|j: int| 0 <= j < 6 ==> #[trigger] keys@[j]@ == wanted[j]);
    let mut current = document.to_owned();
    let mut i: usize = 0;
    while i < keys.len()
        invariant
            keys@.len() == 6,
            wanted == selection_keys(username@),
            forall|j: int| 0 <= j < 6 ==> #[trigger] keys@[j]@ == wanted[j],
            i <= 6,
            i > 0 ==> json_node_of(document@) is Some,
            i == 0 ==> current@ == document@,
            walk(document@, wanted) == walk(current@, wanted.subrange(i as int, 6)),
        decreases 6 - i,
    {
        let ghost rest = wanted.subrange(i as int, 6);
        assert(rest[0] == keys@[i as int]@);
        assert(rest.drop_first() =~= wanted.subrange(i + 1, 6));
        match member_text(current.as_str(), keys[i].as_str()) {
            Ok(Some(t)) => {
                current = t;
            },
            Ok(None) => return Err(ResolveError::IdentifierNotResolvable),
            Err(e) => {
                if i == 0 {
                    return Err(e);
                }
                return Err(ResolveError::IdentifierNotResolvable);
            },
        }
        i = i + 1;
    }
    assert(wanted.subrange(6, 6) =~= Seq::<Seq<char>>::empty());
    let path = match string_text(current.as_str()) {
        Some(p) => p,
        None => return Err(ResolveError::IdentifierNotResolvable),
    };
    match identifier_from_path(path.as_str()) {
        Some(id) => Ok(id),
        None => Err(ResolveError::IdentifierNotResolvable),
    }
}

} // verus!
