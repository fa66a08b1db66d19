//! Random passwords drawn from letters, digits and a few symbols.

use vstd::prelude::*;

verus! {

broadcast use vstd::seq_lib::group_to_multiset_ensures;

pub open spec fn is_lowercase(b: u8) -> bool {
    ('a' as u8) <= b <= ('z' as u8)
}

pub open spec fn is_uppercase(b: u8) -> bool {
    ('A' as u8) <= b <= ('Z' as u8)
}

pub open spec fn is_digit(b: u8) -> bool {
    ('0' as u8) <= b <= ('9' as u8)
}

pub open spec fn is_special(b: u8) -> bool {
    ||| b == ('!' as u8)
    ||| b == ('@' as u8)
    ||| b == ('#' as u8)
    ||| b == ('$' as u8)
    ||| b == ('%' as u8)
    ||| b == ('&' as u8)
}

/// Which kinds of characters a password holds.
#[derive(Debug, Clone, Copy, PartialEq, Eq, Structural)]
pub struct PasswordClasses {
    pub lowercase: bool,
    pub uppercase: bool,
    pub numbers: bool,
    pub special: bool,
}

impl PasswordClasses {
    /// Lowercase letters are used when no kind is chosen.
    pub open spec fn uses_lowercase(self) -> bool {
        self.lowercase || !(self.uppercase || self.numbers || self.special)
    }

    /// The characters a password may hold.
    pub open spec fn allows(self, b: u8) -> bool {
        ||| self.uses_lowercase() && is_lowercase(b)
        ||| self.uppercase && is_uppercase(b)
        ||| self.numbers && is_digit(b)
        ||| self.special && is_special(b)
    }

    /// How many kinds of characters are in use: the shortest possible password.
    pub open spec fn count(self) -> nat {
        (if self.uses_lowercase() { 1nat } else { 0nat }) + (if self.uppercase { 1nat } else { 0nat })
            + (if self.numbers { 1nat } else { 0nat }) + (if self.special { 1nat } else { 0nat })
    }

    /// A valid password: of the given length, only allowed characters, and at
    /// least one character of every kind in use.
    pub open spec fn accepts(self, p: Seq<u8>, length: nat) -> bool {
        &&& p.len() == length
        &&& self.only_allowed(p)
        &&& self.covers(p)
    }

    pub open spec fn only_allowed(self, p: Seq<u8>) -> bool {
        forall|b: u8| #[trigger] p.contains(b) ==> self.allows(b)
    }

    /// At least one character of every kind in use.
    pub open spec fn covers(self, p: Seq<u8>) -> bool {
        &&& self.uses_lowercase() ==> exists|b: u8| #[trigger] p.contains(b) && is_lowercase(b)
        &&& self.uppercase ==> exists|b: u8| #[trigger] p.contains(b) && is_uppercase(b)
        &&& self.numbers ==> exists|b: u8| #[trigger] p.contains(b) && is_digit(b)
        &&& self.special ==> exists|b: u8| #[trigger] p.contains(b) && is_special(b)
    }
}

/// Why no password was generated.
#[derive(Debug, Clone, Copy, PartialEq, Eq, Structural)]
pub enum PasswordError {
    /// The length is smaller than the number of kinds of characters in use.
    TooShort,
}

/// Relies on `rand::seq::SliceRandom::choose` with `rand::thread_rng`: one
/// element of the slice at random, `None` only for an empty slice.
#[verifier::external_body]
fn choose_byte(set: &[u8]) -> (r: Option<u8>)
    ensures
        set@.len() > 0 ==> r is Some,
        r matches Some(b) ==> set@.contains(b),
{
    rand::seq::SliceRandom::choose(set, &mut rand::thread_rng()).copied()
}

/// Relies on `rand::seq::SliceRandom::shuffle` with `rand::thread_rng`: the
/// same elements in a random order.
#[verifier::external_body]
fn shuffle_bytes(v: &mut Vec<u8>)
    ensures
        final(v)@.to_multiset() == old(v)@.to_multiset(),
{
    rand::seq::SliceRandom::shuffle(v.as_mut_slice(), &mut rand::thread_rng())
}

/// The bytes from `lo` to `hi`, both included.
fn byte_range(lo: u8, hi: u8) -> (r: Vec<u8>)
    requires
        lo <= hi,
    ensures
        r@.len() > 0,
        forall|b: u8| r@.contains(b) <==> lo <= b <= hi,
{
    let mut r: Vec<u8> = Vec::new();
    let mut b: u16 = lo as u16;
    while b <= hi as u16
        invariant
            lo <= b <= hi + 1,
            r@.len() == b - lo,
            forall|j: int| 0 <= j < r@.len() ==> r@[j] == lo + j,
        decreases hi + 1 - b,
    {
        r.push(b as u8);
        b = b + 1;
    }
    assert forall|x: u8| lo <= x <= hi implies r@.contains(x) by {
        assert(r@[x - lo] == x);
    }
    assert forall|x: u8| r@.contains(x) implies lo <= x <= hi by {
        let j = choose|j: int| 0 <= j < r@.len() && r@[j] == x;
        assert(r@[j] == lo + j);
    }
    r
}

fn special_characters() -> (r: Vec<u8>)
    ensures
        r@.len() > 0,
        forall|b: u8| r@.contains(b) <==> is_special(b),
{
    let r = vec![('!' as u8), ('@' as u8), ('#' as u8), ('$' as u8), ('%' as u8), ('&' as u8)];
    assert forall|b: u8| is_special(b) implies r@.contains(b) by {
        if b == ('!' as u8) {
            assert(r@[0] == b);
        } else if b == ('@' as u8) {
            assert(r@[1] == b);
        } else if b == ('#' as u8) {
            assert(r@[2] == b);
        } else if b == ('$' as u8) {
            assert(r@[3] == b);
        } else if b == ('%' as u8) {
            assert(r@[4] == b);
        } else {
            assert(r@[5] == b);
        }
    }
    r
}

/// Adds one kind of characters: all of them to the pool, one of them at
/// random to the password.
fn take_class(set: &Vec<u8>, pool: &mut Vec<u8>, password: &mut Vec<u8>) -> (pick: Ghost<u8>)
    requires
        set@.len() > 0,
    ensures
        set@.contains(pick@),
        final(password)@.len() == old(password)@.len() + 1,
        forall|x: u8| #[trigger]
            final(pool)@.contains(x) <==> old(pool)@.contains(x) || set@.contains(x),
        forall|x: u8| #[trigger]
            final(password)@.contains(x) <==> old(password)@.contains(x) || x == pick@,
{
    let ghost pool0 = pool@;
    let ghost password0 = password@;
    pool.extend_from_slice(set.as_slice());
    let b = match choose_byte(set.as_slice()) {
        Some(b) => b,
        None => set[0],
    };
    password.push(b);
    proof {
        assert(pool@ =~= pool0 + set@);
        assert forall|x: u8| #[trigger] pool@.contains(x) <==> pool0.contains(x) || set@.contains(x) by {
            lemma_concat_contains(pool0, set@, x);
        }
        assert forall|x: u8| #[trigger] password@.contains(x) <==> password0.contains(x) || x == b by {
            lemma_push_contains(password0, b, x);
        }
    }
    Ghost(b)
}

proof fn lemma_push_contains(p: Seq<u8>, x: u8, b: u8)
    ensures
        p.push(x).contains(b) <==> (p.contains(b) || b == x),
{
    if p.contains(b) {
        let i = choose|i: int| 0 <= i < p.len() && p[i] == b;
        assert(p.push(x)[i] == b);
    }
    if b == x {
        assert(p.push(x)[p.len() as int] == b);
    }
    if p.push(x).contains(b) {
        let i = choose|i: int| 0 <= i < p.len() + 1 && p.push(x)[i] == b;
        if i < p.len() {
            assert(p[i] == b);
        }
    }
}

proof fn lemma_concat_contains(p: Seq<u8>, q: Seq<u8>, b: u8)
    ensures
        (p + q).contains(b) <==> (p.contains(b) || q.contains(b)),
{
    if p.contains(b) {
        let i = choose|i: int| 0 <= i < p.len() && p[i] == b;
        assert((p + q)[i] == b);
    }
    if q.contains(b) {
        let i = choose|i: int| 0 <= i < q.len() && q[i] == b;
        assert((p + q)[p.len() + i] == b);
    }
    if (p + q).contains(b) {
        let i = choose|i: int| 0 <= i < p.len() + q.len() && (p + q)[i] == b;
        if i < p.len() {
            assert(p[i] == b);
        } else {
            assert(q[i - p.len()] == b);
        }
    }
}

/// A random password of `length` bytes over the chosen kinds of characters,
/// with at least one of each kind; or an error when `length` is too small
/// to hold one of each.
pub fn generate_password_bytes(length: u8, classes: PasswordClasses) -> (r: Result<Vec<u8>, PasswordError>)
    ensures
        length < classes.count() ==> r == Err::<Vec<u8>, PasswordError>(PasswordError::TooShort),
        length >= classes.count() ==> (r matches Ok(p) && classes.accepts(p@, length as nat)),
{
    let mut pool: Vec<u8> = Vec::new();
    let mut password: Vec<u8> = Vec::new();
    let ghost mut lower: u8 = 0;
    let ghost mut upper: u8 = 0;
    let ghost mut digit: u8 = 0;
    let ghost mut special: u8 = 0;
    let use_lower = classes.lowercase || !(classes.uppercase || classes.numbers || classes.special);
    if use_lower {
        let set = byte_range('a' as u8, 'z' as u8);
        let pick = take_class(&set, &mut pool, &mut password);
        proof {
            lower = pick@;
        }
    }
    if classes.uppercase {
        let set = byte_range('A' as u8, 'Z' as u8);
        let pick = take_class(&set, &mut pool, &mut password);
        proof {
            upper = pick@;
        }
    }
    if classes.numbers {
        let set = byte_range('0' as u8, '9' as u8);
        let pick = take_class(&set, &mut pool, &mut password);
        proof {
            digit = pick@;
        }
    }
    if classes.special {
        let set = special_characters();
        let pick = take_class(&set, &mut pool, &mut password);
        proof {
            special = pick@;
        }
    }
    assert(password@.len() == classes.count());
    assert(forall|x: u8| #[trigger] pool@.contains(x) <==> classes.allows(x));
    assert(forall|x: u8| #[trigger] password@.contains(x) ==> pool@.contains(x));
    assert(use_lower ==> password@.contains(lower) && is_lowercase(lower));
    assert(classes.uppercase ==> password@.contains(upper) && is_uppercase(upper));
    assert(classes.numbers ==> password@.contains(digit) && is_digit(digit));
    assert(classes.special ==> password@.contains(special) && is_special(special));
    if (length as usize) < password.len() {
        return Err(PasswordError::TooShort);
    }
    assert(password@.contains(password@[0]));
    while password.len() < length as usize
        invariant
            pool@.len() > 0,
            password@.len() <= length,
            forall|x: u8| #[trigger] pool@.contains(x) <==> classes.allows(x),
            forall|x: u8| #[trigger] password@.contains(x) ==> pool@.contains(x),
            classes.uses_lowercase() ==> password@.contains(lower) && is_lowercase(lower),
            classes.uppercase ==> password@.contains(upper) && is_uppercase(upper),
            classes.numbers ==> password@.contains(digit) && is_digit(digit),
            classes.special ==> password@.contains(special) && is_special(special),
        decreases length - password@.len(),
    {
        let ghost before = password@;
        let b = match choose_byte(pool.as_slice()) {
            Some(b) => b,
            None => pool[0],
        };
        password.push(b);
        proof {
            assert forall|x: u8| #[trigger] password@.contains(x) <==> before.contains(x) || x == b by {
                lemma_push_contains(before, b, x);
            }
        }
    }
    let ghost before = password@;
    shuffle_bytes(&mut password);
    proof {
        assert forall|x: u8| #[trigger] password@.contains(x) <==> before.contains(x) by {
            assert(password@.to_multiset().count(x) == before.to_multiset().count(x));
        }
        assert(password@.len() == password@.to_multiset().len());
        assert(before.len() == before.to_multiset().len());
        assert(classes.uses_lowercase() ==> password@.contains(lower));
        assert(classes.uppercase ==> password@.contains(upper));
        assert(classes.numbers ==> password@.contains(digit));
        assert(classes.special ==> password@.contains(special));
    }
    Ok(password)
}

#[verifier::external_type_specification]
#[verifier::external_body]
pub struct ExFromUtf8Error(std::string::FromUtf8Error);

/// Relies on `String::from_utf8`: ASCII bytes are valid UTF-8 and each is
/// one character.
#[verifier::external_body]
fn string_from_utf8(bytes: Vec<u8>) -> (r: Result<String, std::string::FromUtf8Error>)
    ensures
        r is Ok || exists|i: int| 0 <= i < bytes@.len() && bytes@[i] >= 128,
        r matches Ok(s) ==> ((forall|i: int| 0 <= i < bytes@.len() ==> bytes@[i] < 128) ==> s@
            == bytes@.map_values(|b: u8| b as char)),
{
    String::from_utf8(bytes)
}

/// A random password of `length` characters over the chosen kinds, with at
/// least one of each kind (lowercase letters when none is chosen).
pub fn generate_password(length: u8, lowercase: bool, uppercase: bool, numbers: bool, special: bool) -> (r: Result<
    String,
    PasswordError,
>)
    ensures
        ({
            let classes = PasswordClasses { lowercase, uppercase, numbers, special };
            &&& length < classes.count() ==> r == Err::<String, PasswordError>(PasswordError::TooShort)
            &&& length >= classes.count() ==> (r matches Ok(s) && exists|p: Seq<u8>|
                classes.accepts(p, length as nat) && s@ == p.map_values(|b: u8| b as char))
        }),
{
    let classes = PasswordClasses { lowercase, uppercase, numbers, special };
    let bytes = generate_password_bytes(length, classes)?;
    let ghost p = bytes@;
    assert forall|i: int| 0 <= i < p.len() implies p[i] < 128 by {
        assert(p.contains(p[i]));
    }
    match string_from_utf8(bytes) {
        Ok(s) => Ok(s),
        Err(_) => Err(PasswordError::TooShort),
    }
}

} // verus!
