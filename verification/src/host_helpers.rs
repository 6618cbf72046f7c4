//! Small computations of the host: failure messages, C strings, module ids
//! and the check that a library is no longer mapped into the process.
use vstd::prelude::*;
use vstd::string::{StringExecFns, StringSliceAdditionalSpecFns};
use crate::shared::ModuleId;

verus! {

/// Text of a fatal error of the host, before it aborts the process.
pub fn unrecoverable(message: &str) -> (text: String)
    ensures
        text@ == "something unrecoverable happened: "@ + message@,
{
    let mut text = String::from_str("something unrecoverable happened: ");
    text.append(message);
    text
}

/// Text of a fatal error tagged with where it came from, before the host
/// aborts the process.
pub fn unrecoverable_with_prefix(message: &str, prefix: &str) -> (text: String)
    ensures
        text@ == "["@ + prefix@ + "] something unrecoverable happened: "@ + message@,
{
    let mut text = String::from_str("[");
    text.append(prefix);
    text.append("] something unrecoverable happened: ");
    text.append(message);
    text
}

/// The UTF-8 bytes of a string followed by a terminating zero byte, as C
/// expects a symbol name.
pub fn cstr_bytes(s: &str) -> (bytes: Vec<u8>)
    ensures
        bytes@ == s.spec_bytes().push(0u8),
{
    let src = s.as_bytes();
    let mut bytes: Vec<u8> = Vec::new();
    let mut i: usize = 0;
    while i < src.len()
        invariant
            src@ == s.spec_bytes(),
            0 <= i <= src@.len(),
            bytes@ == src@.take(i as int),
        decreases src@.len() - i,
    {
        bytes.push(src[i]);
        i = i + 1;
        assert(bytes@ =~= src@.take(i as int));
    }
    assert(src@.take(src@.len() as int) =~= src@);
    bytes.push(0u8);
    bytes
}

/// Hands out module ids, starting from 1, each at most once.
pub struct ModuleIdCounter {
    next: ModuleId,
}

impl View for ModuleIdCounter {
    type V = ModuleId;

    closed spec fn view(&self) -> ModuleId {
        self.next
    }
}

/// The counter value after one more id was handed out; it wraps around to
/// 0, which marks the counter as exhausted.
pub open spec fn counter_after(next: ModuleId) -> ModuleId {
    if next == ModuleId::MAX {
        0
    } else {
        (next + 1) as ModuleId
    }
}

impl ModuleIdCounter {
    /// A counter whose first id is 1.
    pub fn new() -> (r: Self)
        ensures
            r@ == 1,
    {
        ModuleIdCounter { next: 1 }
    }

    /// Whether every id has been handed out.
    pub fn is_exhausted(&self) -> (r: bool)
        ensures
            r == (self@ == 0),
    {
        self.next == 0
    }

    /// The next module id; ids are never 0 and never handed out twice.
    pub fn next_module_id(&mut self) -> (id: ModuleId)
        requires
            old(self)@ != 0,
        ensures
            id == old(self)@,
            id != 0,
            final(self)@ == counter_after(old(self)@),
    {
        let id = self.next;
        self.next = self.next.wrapping_add(1);
        id
    }
}

/// Ids handed out one after the other by the counter strictly increase, so
/// no module id is ever reused.
pub proof fn law_module_ids_increase(next: ModuleId)
    requires
        next != 0,
        counter_after(next) != 0,
    ensures
        counter_after(next) > next,
{
}

/// The counter value after `k` ids were handed out from `next`.
pub open spec fn counter_after_n(next: ModuleId, k: nat) -> ModuleId
    decreases k,
{
    if k == 0 {
        next
    } else {
        counter_after(counter_after_n(next, (k - 1) as nat))
    }
}

/// From a new counter, the id handed out by the `k`-th call (counting from
/// 0) is `k + 1`, for as long as ids last: every id is fresh.
pub proof fn law_kth_module_id(k: nat)
    requires
        k < ModuleId::MAX,
    ensures
        counter_after_n(1, k) == k + 1,
    decreases k,
{
    if k > 0 {
        law_kth_module_id((k - 1) as nat);
    }
}

/// The byte string `needle` occurs in `hay` at some offset.
pub open spec fn bytes_contain(hay: Seq<u8>, needle: Seq<u8>) -> bool {
    exists|i: int| 0 <= i <= hay.len() - needle.len() && #[trigger] hay.subrange(i, i + needle.len()) == needle
}

/// A byte string occurs in any text that holds it, wherever it stands: at
/// the start, in the middle or at the end.
pub proof fn law_contains_what_it_holds(before: Seq<u8>, needle: Seq<u8>, after: Seq<u8>)
    ensures
        bytes_contain(before + needle + after, needle),
{
    let hay = before + needle + after;
    assert(hay.subrange(before.len() as int, (before.len() + needle.len()) as int) =~= needle);
}

/// Whether `needle` occurs in `hay` (compared byte by byte).
pub fn str_contains(hay: &str, needle: &str) -> (r: bool)
    ensures
        r == bytes_contain(hay.spec_bytes(), needle.spec_bytes()),
{
    let h = hay.as_bytes();
    let n = needle.as_bytes();
    if n.len() > h.len() {
        proof {
            assert forall|i: int| 0 <= i <= h@.len() - n@.len() implies #[trigger] h@.subrange(i, i + n@.len()) != n@ by {}
        }
        return false;
    }
    let hl = h.len();
    let last = hl - n.len();
    let mut i: usize = 0;
    while i <= last
        invariant
            h@ == hay.spec_bytes(),
            n@ == needle.spec_bytes(),
            last == h@.len() - n@.len(),
            hl == h@.len(),
            0 <= i <= last + 1,
            forall|k: int| 0 <= k < i ==> #[trigger] h@.subrange(k, k + n@.len()) != n@,
        decreases last + 1 - i,
    {
        let mut j: usize = 0;
        let mut same = true;
        while j < n.len()
            invariant
                h@ == hay.spec_bytes(),
                n@ == needle.spec_bytes(),
                i <= last,
                hl == h@.len(),
                last == h@.len() - n@.len(),
                0 <= j <= n@.len(),
                same == (forall|t: int| 0 <= t < j ==> h@[i + t] == n@[t]),
            decreases n@.len() - j,
        {
            assert(i + j < h@.len());
            if h[i + j] != n[j] {
                same = false;
            }
            j = j + 1;
        }
        if same {
            assert(h@.subrange(i as int, i + n@.len()) =~= n@);
            return true;
        }
        proof {
            let t = choose|t: int| 0 <= t < n@.len() && h@[i + t] != n@[t];
            assert(h@.subrange(i as int, i + n@.len())[t] != n@[t]);
        }
        if i == last {
            return false;
        }
        i = i + 1;
    }
    false
}

/// Whether one of the readable lines of the process's memory-map listing
/// names the library's path, i.e. the library is still mapped.
pub fn is_library_loaded(map_lines: &[Option<String>], library_path: &str) -> (r: bool)
    ensures
        r == exists|i: int|
            0 <= i < map_lines@.len() && #[trigger] map_lines@[i] is Some && bytes_contain(
                vstd::utf8::encode_utf8(map_lines@[i]->0@),
                library_path.spec_bytes(),
            ),
{
    let mut i: usize = 0;
    while i < map_lines.len()
        invariant
            0 <= i <= map_lines@.len(),
            forall|k: int|
                0 <= k < i ==> !(#[trigger] map_lines@[k] is Some && bytes_contain(
                    vstd::utf8::encode_utf8(map_lines@[k]->0@),
                    library_path.spec_bytes(),
                )),
        decreases map_lines@.len() - i,
    {
        match &map_lines[i] {
            Some(line) => {
                if str_contains(line.as_str(), library_path) {
                    return true;
                }
            },
            None => {},
        }
        i = i + 1;
    }
    false
}

} // verus!
