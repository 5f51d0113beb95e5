use vstd::prelude::*;
use crate::text::{push_char, push_signed_decimal, push_zero_padded, signed_decimal, zero_padded, lemma_zero_padded_injective};

verus! {

/// The index of the first `c` in `s`, if any.
pub open spec fn first_index_of(s: Seq<char>, c: char) -> Option<nat>
    decreases s.len(),
{
    if s.len() == 0 {
        None
    } else if s[0] == c {
        Some(0)
    } else {
        match first_index_of(s.drop_first(), c) {
            Some(i) => Some(i + 1),
            None => None,
        }
    }
}

/// The name tried on the `counter`-th attempt to store `base` without
/// overwriting: `base` itself first, then `{name}_{counter:03}.{ext}` where
/// `name` and `ext` are what comes before and after the first '.' of `base`.
/// There is no such name past the first attempt when `base` has no '.'.
pub open spec fn filename_candidate(base: Seq<char>, counter: nat) -> Option<Seq<char>> {
    if counter == 0 {
        Some(base)
    } else {
        match first_index_of(base, '.') {
            None => None,
            Some(i) => Some(
                base.subrange(0, i as int) + seq!['_'] + zero_padded(counter, 3) + seq!['.']
                    + base.subrange(i + 1int, base.len() as int),
            ),
        }
    }
}

proof fn lemma_first_index_of(s: Seq<char>, c: char)
    ensures
        first_index_of(s, c) matches Some(i) ==> i < s.len() && s[i as int] == c && forall|j: int|
            0 <= j < i ==> s[j] != c,
        first_index_of(s, c) is None ==> forall|j: int| 0 <= j < s.len() ==> s[j] != c,
    decreases s.len(),
{
    if s.len() > 0 && s[0] != c {
        lemma_first_index_of(s.drop_first(), c);
        assert forall|j: int| 0 < j < s.len() implies s[j] == s.drop_first()[j - 1] by {}
    }
}

fn find_first(s: &str, c: char) -> (res: Option<usize>)
    ensures
        match first_index_of(s@, c) {
            Some(i) => res == Some(i as usize),
            None => res is None,
        },
{
    proof {
        lemma_first_index_of(s@, c);
    }
    let len = s.unicode_len();
    let mut i: usize = 0;
    while i < len
        invariant
            len == s@.len(),
            i <= len,
            forall|j: int| 0 <= j < i ==> s@[j] != c,
            first_index_of(s@, c) matches Some(k) ==> i <= k,
        decreases len - i,
    {
        proof {
            lemma_first_index_of(s@, c);
        }
        if s.get_char(i) == c {
            return Some(i);
        }
        i = i + 1;
    }
    None
}

/// The name to try on the `counter`-th attempt to store an upload called
/// `base` (see `filename_candidate`); `None` when `base` has no '.' and the
/// first attempt is taken.
pub fn unique_filename_candidate(base: &str, counter: u32) -> (res: Option<String>)
    ensures
        match filename_candidate(base@, counter as nat) {
            Some(name) => res matches Some(r) && r@ == name,
            None => res is None,
        },
{
    if counter == 0 {
        return Some(base.to_owned());
    }
    match find_first(base, '.') {
        None => None,
        Some(i) => {
            proof {
                lemma_first_index_of(base@, '.');
            }
            let len = base.unicode_len();
            let mut name = base.substring_char(0, i).to_owned();
            push_char(&mut name, '_');
            push_zero_padded(&mut name, counter as u64, 3);
            push_char(&mut name, '.');
            name.append(base.substring_char(i + 1, len));
            Some(name)
        },
    }
}

/// No two attempts try the same name: the candidates for different counters
/// differ.
pub proof fn law_filename_candidates_distinct(base: Seq<char>, a: nat, b: nat)
    requires
        a != b,
        filename_candidate(base, a) is Some,
        filename_candidate(base, b) is Some,
    ensures
        filename_candidate(base, a) != filename_candidate(base, b),
{
    lemma_first_index_of(base, '.');
    if a > 0 && b > 0 {
        let i = first_index_of(base, '.')->0;
        let name = base.subrange(0, i as int);
        let ext = base.subrange(i + 1int, base.len() as int);
        let ca = filename_candidate(base, a)->0;
        let cb = filename_candidate(base, b)->0;
        let pa = zero_padded(a, 3);
        let pb = zero_padded(b, 3);
        if ca == cb {
            assert(ca.len() == cb.len());
            assert(pa.len() == pb.len());
            assert(ca.subrange(i + 1int, i + 1int + pa.len()) =~= pa);
            assert(cb.subrange(i + 1int, i + 1int + pb.len()) =~= pb);
            lemma_zero_padded_injective(a, b, 3);
        }
    } else {
        // one of them is `base` itself, which has '.' where the other has '_'
        let i = first_index_of(base, '.')->0;
        let other = if a == 0 { b } else { a };
        let c = filename_candidate(base, other)->0;
        assert(c[i as int] == '_');
        assert(base[i as int] == '.');
    }
}

/// What a search for a free name does after checking attempt `counter`.
#[derive(Debug)]
pub enum NameSearch {
    /// The attempt's candidate is free: the upload takes this name.
    Found(String),
    /// The candidate is taken: check the attempt with this counter next.
    Next(u32),
}

/// One step of the search for a name not yet taken, started at attempt 0:
/// given whether attempt `counter`'s candidate (see `filename_candidate`)
/// is taken, the name to use when it is free, or else the next attempt.
/// `None` when the search cannot go on: the candidate does not exist (`base`
/// has no '.') or the counter would pass `u32::MAX`.
pub fn unique_filename_step(base: &str, counter: u32, taken: bool) -> (res: Option<NameSearch>)
    ensures
        match filename_candidate(base@, counter as nat) {
            None => res is None,
            Some(name) => if !taken {
                res matches Some(NameSearch::Found(n)) && n@ == name
            } else if counter < u32::MAX {
                res matches Some(NameSearch::Next(c)) && c == counter + 1
            } else {
                res is None
            },
        },
{
    match unique_filename_candidate(base, counter) {
        None => None,
        Some(name) => if !taken {
            Some(NameSearch::Found(name))
        } else if counter < u32::MAX {
            Some(NameSearch::Next(counter + 1))
        } else {
            None
        },
    }
}

/// Where a search by `unique_filename_step` from attempt `counter` stops
/// within `fuel` steps, when `taken` says which names are taken: the name it
/// takes, or `None` when it stops without one or runs out of steps.
pub open spec fn searched(base: Seq<char>, taken: spec_fn(Seq<char>) -> bool, counter: nat, fuel: nat) -> Option<
    Seq<char>,
>
    decreases fuel,
{
    if fuel == 0 {
        None
    } else {
        match filename_candidate(base, counter) {
            None => None,
            Some(name) => if !taken(name) {
                Some(name)
            } else if counter < u32::MAX {
                searched(base, taken, counter + 1, (fuel - 1) as nat)
            } else {
                None
            },
        }
    }
}

/// Whether attempt `n`'s candidate is the first free one: it is free and
/// every earlier candidate is taken.
pub open spec fn first_free(base: Seq<char>, taken: spec_fn(Seq<char>) -> bool, n: nat) -> bool {
    &&& filename_candidate(base, n) matches Some(name) && !taken(name)
    &&& forall|i: nat| i < n ==> ((#[trigger] filename_candidate(base, i)) matches Some(c) && taken(c))
}

proof fn lemma_searched_from(base: Seq<char>, taken: spec_fn(Seq<char>) -> bool, k: nat, n: nat)
    requires
        first_free(base, taken, n),
        k <= n,
        n <= u32::MAX,
    ensures
        searched(base, taken, k, (n - k + 1) as nat) == filename_candidate(base, n),
    decreases n - k,
{
    if k < n {
        assert(filename_candidate(base, k) matches Some(c) && taken(c));
        lemma_searched_from(base, taken, k + 1, n);
        assert((n - k + 1) as nat - 1 == (n - (k + 1) + 1) as nat);
    }
}

/// A search for a free name started at attempt 0 takes the first free
/// candidate: once attempt `n`'s candidate is the first free one, `n + 1`
/// steps find exactly that name, and no other attempt is the first free one.
pub proof fn law_search_takes_first_free_name(base: Seq<char>, taken: spec_fn(Seq<char>) -> bool, n: nat)
    requires
        first_free(base, taken, n),
        n <= u32::MAX,
    ensures
        searched(base, taken, 0, n + 1) == filename_candidate(base, n),
        forall|m: nat| #[trigger] first_free(base, taken, m) ==> m == n,
{
    lemma_searched_from(base, taken, 0, n);
    assert forall|m: nat| #[trigger] first_free(base, taken, m) implies m == n by {
        if m < n {
            assert(filename_candidate(base, m) matches Some(c) && taken(c));
        } else if n < m {
            assert(filename_candidate(base, n) matches Some(c) && taken(c));
        }
    }
}

/// Where an upload named `name` for product `product_id` would sit on disk
/// under the local store: `storage-uploads/product_images/{product_id}/{name}`.
pub open spec fn stored_image_path(product_id: i32, name: Seq<char>) -> Seq<char> {
    "storage-uploads/product_images/"@ + signed_decimal(product_id as int) + seq!['/'] + name
}

/// The storage key of an image upload: `product_images/{product_id}/{name}`.
pub open spec fn image_key(product_id: i32, name: Seq<char>) -> Seq<char> {
    "product_images/"@ + signed_decimal(product_id as int) + seq!['/'] + name
}

/// The on-disk path checked for a name already taken (see `stored_image_path`).
pub fn stored_image_path_of(product_id: i32, name: &str) -> (res: String)
    ensures
        res@ == stored_image_path(product_id, name@),
{
    let mut res = "storage-uploads/product_images/".to_owned();
    push_signed_decimal(&mut res, product_id as i64);
    push_char(&mut res, '/');
    res.append(name);
    res
}

/// The storage key under which an image upload is saved (see `image_key`).
pub fn image_key_of(product_id: i32, name: &str) -> (res: String)
    ensures
        res@ == image_key(product_id, name@),
{
    let mut res = "product_images/".to_owned();
    push_signed_decimal(&mut res, product_id as i64);
    push_char(&mut res, '/');
    res.append(name);
    res
}

/// The image path recorded for an upload request: the key of the last file
/// stored, or `default_path.txt` when the request carried none.
pub fn recorded_image_path(last_stored: Option<String>) -> (res: String)
    ensures
        match last_stored {
            Some(p) => res@ == p@,
            None => res@ == "default_path.txt"@,
        },
{
    match last_stored {
        Some(p) => p,
        None => "default_path.txt".to_owned(),
    }
}

} // verus!
