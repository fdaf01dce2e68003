use vstd::prelude::*;
use vstd::string::StringSliceAdditionalSpecFns;

verus! {

/// ASCII lower case of one byte; every other byte stays as it is.
pub open spec fn fold_byte(b: u8) -> u8 {
    if 65 <= b <= 90 { (b + 32) as u8 } else { b }
}

/// Whether two byte strings are equal once ASCII letters are folded to lower case.
pub open spec fn bytes_match_ignoring_case(a: Seq<u8>, b: Seq<u8>) -> bool {
    &&& a.len() == b.len()
    &&& forall|i: int| 0 <= i < a.len() ==> fold_byte(#[trigger] a[i]) == fold_byte(b[i])
}

fn lower_byte(b: u8) -> (r: u8)
    ensures
        r == fold_byte(b),
{
    if 65 <= b && b <= 90 { b + 32 } else { b }
}

/// Compares two strings byte by byte, ignoring ASCII case.
pub fn names_equal(a: &str, b: &str) -> (r: bool)
    ensures
        r == bytes_match_ignoring_case(a.spec_bytes(), b.spec_bytes()),
{
    let x = a.as_bytes();
    let y = b.as_bytes();
    if x.len() != y.len() {
        return false;
    }
    let mut i: usize = 0;
    while i < x.len()
        invariant
            x@ == a.spec_bytes(),
            y@ == b.spec_bytes(),
            x@.len() == y@.len(),
            0 <= i <= x@.len(),
            forall|j: int| 0 <= j < i ==> fold_byte(#[trigger] x@[j]) == fold_byte(y@[j]),
        decreases x@.len() - i,
    {
        if lower_byte(x[i]) != lower_byte(y[i]) {
            return false;
        }
        i = i + 1;
    }
    true
}

/// A byte that may stand in a header name: the token characters of HTTP,
/// which are ASCII digits and letters and ``!#$%&'*+-.^_`|~``.
pub open spec fn is_token_byte(b: u8) -> bool {
    ||| 48 <= b <= 57
    ||| 65 <= b <= 90
    ||| 97 <= b <= 122
    ||| b == 33 || b == 35 || b == 36 || b == 37 || b == 38 || b == 39
    ||| b == 42 || b == 43 || b == 45 || b == 46 || b == 94 || b == 95
    ||| b == 96 || b == 124 || b == 126
}

/// A byte that may stand in the UTF-8 form of a header value: no NUL, CR or
/// LF, and no character past U+00FF (a header holds one byte per character,
/// and in UTF-8 only those characters use lead bytes below 0xC4).
pub open spec fn is_value_byte(b: u8) -> bool {
    b != 0 && b != 10 && b != 13 && b < 0xC4
}

/// A header name that HTTP allows: a non-empty token.
pub open spec fn valid_name(name: Seq<char>) -> bool {
    let b = vstd::utf8::encode_utf8(name);
    &&& b.len() > 0
    &&& forall|i: int| 0 <= i < b.len() ==> is_token_byte(#[trigger] b[i])
}

/// A header value that HTTP allows.
pub open spec fn valid_value(value: Seq<char>) -> bool {
    let b = vstd::utf8::encode_utf8(value);
    forall|i: int| 0 <= i < b.len() ==> is_value_byte(#[trigger] b[i])
}

pub open spec fn valid_header(name: Seq<char>, value: Seq<char>) -> bool {
    valid_name(name) && valid_value(value)
}

/// Every entry of `h` has a name and a value that HTTP allows.
pub open spec fn all_valid(h: Seq<(Seq<char>, Seq<char>)>) -> bool {
    forall|i: int| 0 <= i < h.len() ==> valid_header(#[trigger] h[i].0, h[i].1)
}

fn token_byte(b: u8) -> (r: bool)
    ensures
        r == is_token_byte(b),
{
    (48 <= b && b <= 57) || (65 <= b && b <= 90) || (97 <= b && b <= 122) || b == 33
        || b == 35 || b == 36 || b == 37 || b == 38 || b == 39 || b == 42 || b
        == 43 || b == 45 || b == 46 || b == 94 || b == 95 || b == 96 || b == 124
        || b == 126
}

/// Whether HTTP allows `name` as a header name.
pub fn is_valid_name(name: &str) -> (r: bool)
    ensures
        r == valid_name(name@),
{
    let b = name.as_bytes();
    if b.len() == 0 {
        return false;
    }
    let mut i: usize = 0;
    while i < b.len()
        invariant
            b@ == name.spec_bytes(),
            0 <= i <= b@.len(),
            forall|j: int| 0 <= j < i ==> is_token_byte(#[trigger] b@[j]),
        decreases b@.len() - i,
    {
        if !token_byte(b[i]) {
            return false;
        }
        i = i + 1;
    }
    true
}

/// Whether HTTP allows `value` as a header value.
pub fn is_valid_value(value: &str) -> (r: bool)
    ensures
        r == valid_value(value@),
{
    let b = value.as_bytes();
    let mut i: usize = 0;
    while i < b.len()
        invariant
            b@ == value.spec_bytes(),
            0 <= i <= b@.len(),
            forall|j: int| 0 <= j < i ==> is_value_byte(#[trigger] b@[j]),
        decreases b@.len() - i,
    {
        let c = b[i];
        if c == 0 || c == 10 || c == 13 || c >= 0xC4 {
            return false;
        }
        i = i + 1;
    }
    true
}

/// Whether two header names are the same name: HTTP compares them byte by byte,
/// ignoring ASCII case.
pub open spec fn same_name(a: Seq<char>, b: Seq<char>) -> bool {
    bytes_match_ignoring_case(vstd::utf8::encode_utf8(a), vstd::utf8::encode_utf8(b))
}

/// The entries of `h` whose name is not `name`, in their order.
pub open spec fn without_name(h: Seq<(Seq<char>, Seq<char>)>, name: Seq<char>) -> Seq<
    (Seq<char>, Seq<char>),
>
    decreases h.len(),
{
    if h.len() == 0 {
        Seq::empty()
    } else {
        let rest = without_name(h.drop_last(), name);
        if same_name(h.last().0, name) {
            rest
        } else {
            rest.push(h.last())
        }
    }
}

/// What setting `name` to `value` makes of a header list: every entry of that
/// name goes, and one entry with the new value comes last.
pub open spec fn set_entry(h: Seq<(Seq<char>, Seq<char>)>, name: Seq<char>, value: Seq<char>) -> Seq<
    (Seq<char>, Seq<char>),
> {
    without_name(h, name).push((name, value))
}

/// What setting a header does to a list: `set_entry` where HTTP allows the
/// name and the value, else nothing.
pub open spec fn after_set(h: Seq<(Seq<char>, Seq<char>)>, name: Seq<char>, value: Seq<char>) -> Seq<
    (Seq<char>, Seq<char>),
> {
    if valid_header(name, value) {
        set_entry(h, name, value)
    } else {
        h
    }
}

/// What appending a header does to a list: one more entry at the end where
/// HTTP allows the name and the value, else nothing.
pub open spec fn after_append(
    h: Seq<(Seq<char>, Seq<char>)>,
    name: Seq<char>,
    value: Seq<char>,
) -> Seq<(Seq<char>, Seq<char>)> {
    if valid_header(name, value) {
        h.push((name, value))
    } else {
        h
    }
}

proof fn lemma_without_name(h: Seq<(Seq<char>, Seq<char>)>, name: Seq<char>)
    ensures
        forall|i: int|
            0 <= i < without_name(h, name).len() ==> !same_name(
                #[trigger] without_name(h, name)[i].0,
                name,
            ),
        forall|i: int|
            0 <= i < h.len() && !same_name(#[trigger] h[i].0, name) ==> without_name(
                h,
                name,
            ).contains(h[i]),
        forall|i: int|
            0 <= i < without_name(h, name).len() ==> h.contains(
                #[trigger] without_name(h, name)[i],
            ),
    decreases h.len(),
{
    if h.len() > 0 {
        let init = h.drop_last();
        lemma_without_name(init, name);
        let rest = without_name(init, name);
        assert forall|i: int| 0 <= i < without_name(h, name).len() implies h.contains(
            #[trigger] without_name(h, name)[i],
        ) by {
            if i < rest.len() {
                let k = choose|k: int| 0 <= k < init.len() && init[k] == rest[i];
                assert(h[k] == init[k]);
            } else {
                assert(h[h.len() - 1] == h.last());
            }
        }
        assert forall|i: int| 0 <= i < h.len() && !same_name(#[trigger] h[i].0, name) implies without_name(
            h,
            name,
        ).contains(h[i]) by {
            if i < h.len() - 1 {
                assert(init[i] == h[i]);
                let k = choose|k: int| 0 <= k < rest.len() && rest[k] == init[i];
                if !same_name(h.last().0, name) {
                    assert(rest.push(h.last())[k] == h[i]);
                }
            } else {
                assert(rest.push(h.last())[rest.len() as int] == h[i]);
            }
        }
    }
}

/// After a set of `name` that HTTP allows, exactly one entry carries that name: the new one,
/// which comes last. Every entry of another name is still there.
pub proof fn lemma_set_leaves_one_entry(
    h: Seq<(Seq<char>, Seq<char>)>,
    name: Seq<char>,
    value: Seq<char>,
)
    ensures
        set_entry(h, name, value).last() == (name, value),
        forall|i: int|
            0 <= i < set_entry(h, name, value).len() - 1 ==> !same_name(
                #[trigger] set_entry(h, name, value)[i].0,
                name,
            ),
        forall|i: int|
            0 <= i < h.len() && !same_name(#[trigger] h[i].0, name) ==> set_entry(
                h,
                name,
                value,
            ).contains(h[i]),
{
    lemma_without_name(h, name);
    let w = without_name(h, name);
    assert forall|i: int| 0 <= i < set_entry(h, name, value).len() - 1 implies !same_name(
        #[trigger] set_entry(h, name, value)[i].0,
        name,
    ) by {
        assert(set_entry(h, name, value)[i] == w[i]);
    }
    assert forall|i: int| 0 <= i < h.len() && !same_name(#[trigger] h[i].0, name) implies set_entry(
        h,
        name,
        value,
    ).contains(h[i]) by {
        let k = choose|k: int| 0 <= k < w.len() && w[k] == h[i];
        assert(set_entry(h, name, value)[k] == h[i]);
    }
}

/// An ordered list of header entries, as a response carries them. One name may
/// occur more than once.
#[derive(Debug)]
pub struct HeaderList {
    entries: Vec<(String, String)>,
}

impl View for HeaderList {
    type V = Seq<(Seq<char>, Seq<char>)>;

    closed spec fn view(&self) -> Seq<(Seq<char>, Seq<char>)> {
        self.entries@.map_values(|e: (String, String)| (e.0@, e.1@))
    }
}

impl Clone for HeaderList {
    fn clone(&self) -> (r: HeaderList)
        ensures
            r@ == self@,
    {
        let mut r = HeaderList::new();
        let n = self.len();
        let mut i: usize = 0;
        while i < n
            invariant
                n == self@.len(),
                0 <= i <= n,
                r@ == self@.take(i as int),
            decreases n - i,
        {
            let (name, value) = self.entry(i);
            r.append(name.as_str(), value.as_str());
            i = i + 1;
            assert(r@ =~= self@.take(i as int));
        }
        assert(self@.take(i as int) =~= self@);
        r
    }
}

impl HeaderList {
    /// Every entry holds a name and a value that HTTP allows.
    #[verifier::type_invariant]
    spec fn inv(&self) -> bool {
        all_valid(self@)
    }

    /// A list without entries.
    pub fn new() -> (r: HeaderList)
        ensures
            r@ == Seq::<(Seq<char>, Seq<char>)>::empty(),
    {
        let r = HeaderList { entries: Vec::new() };
        assert(r@ =~= Seq::<(Seq<char>, Seq<char>)>::empty());
        r
    }

    /// The number of entries.
    pub fn len(&self) -> (r: usize)
        ensures
            r == self@.len(),
    {
        self.entries.len()
    }

    /// The name and value of the entry at `index`; HTTP allows both.
    pub fn entry(&self, index: usize) -> (r: (String, String))
        requires
            index < self@.len(),
        ensures
            r.0@ == self@[index as int].0,
            r.1@ == self@[index as int].1,
            valid_header(r.0@, r.1@),
    {
        proof {
            use_type_invariant(self);
        }
        let e = &self.entries[index];
        assert(self@[index as int] == (e.0@, e.1@));
        (e.0.clone(), e.1.clone())
    }

    /// Adds an entry at the end, leaving entries of the same name in place.
    /// A name or a value that HTTP does not allow leaves the list as it was.
    pub fn append(&mut self, name: &str, value: &str)
        ensures
            final(self)@ == after_append(old(self)@, name@, value@),
    {
        proof {
            use_type_invariant(&*self);
        }
        if !is_valid_name(name) || !is_valid_value(value) {
            return;
        }
        let ghost before = self@;
        let mut taken = HeaderList::new();
        core::mem::swap(self, &mut taken);
        proof {
            use_type_invariant(&taken);
        }
        let HeaderList { mut entries } = taken;
        entries.push((name.to_owned(), value.to_owned()));
        assert(entries@.map_values(|e: (String, String)| (e.0@, e.1@)) =~= before.push(
            (name@, value@),
        ));
        *self = HeaderList { entries };
        assert(self@ =~= before.push((name@, value@)));
    }

    /// Sets `name` to `value`: entries of that name are replaced by one entry,
    /// which comes last. A name or a value that HTTP does not allow leaves the
    /// list as it was.
    pub fn set(&mut self, name: &str, value: &str)
        ensures
            final(self)@ == after_set(old(self)@, name@, value@),
    {
        proof {
            use_type_invariant(&*self);
        }
        if !is_valid_name(name) || !is_valid_value(value) {
            return;
        }
        let mut kept: Vec<(String, String)> = Vec::new();
        let mut i: usize = 0;
        let ghost before = self@;
        while i < self.entries.len()
            invariant
                self@ == before,
                0 <= i <= self@.len(),
                kept@.map_values(|e: (String, String)| (e.0@, e.1@)) == without_name(
                    before.take(i as int),
                    name@,
                ),
            decreases self@.len() - i,
        {
            let e = &self.entries[i];
            let same = names_equal(e.0.as_str(), name);
            proof {
                assert(before.take(i + 1).drop_last() =~= before.take(i as int));
                assert(before[i as int] == (e.0@, e.1@));
            }
            if !same {
                kept.push((e.0.clone(), e.1.clone()));
            }
            i = i + 1;
            assert(kept@.map_values(|e: (String, String)| (e.0@, e.1@)) =~= without_name(
                before.take(i as int),
                name@,
            ));
        }
        assert(before.take(i as int) =~= before);
        kept.push((name.to_owned(), value.to_owned()));
        proof {
            lemma_without_name(before, name@);
            let w = without_name(before, name@);
            assert forall|j: int| 0 <= j < w.len() implies valid_header(
                #[trigger] w[j].0,
                w[j].1,
            ) by {
                assert(before.contains(w[j]));
            }
        }
        assert(kept@.map_values(|e: (String, String)| (e.0@, e.1@)) =~= set_entry(
            before,
            name@,
            value@,
        ));
        *self = HeaderList { entries: kept };
    }
}

} // verus!
