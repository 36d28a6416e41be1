//! The user entity and its value objects: identifiers, timestamps and
//! validated email addresses.

use vstd::prelude::*;

use crate::error::DomainError;

verus! {

/// The text of `s` with every character replaced by its lowercase mapping.
pub uninterp spec fn lower_of(s: Seq<char>) -> Seq<char>;

/// The lowercase hexadecimal digit of `d`, for `d < 16`.
pub open spec fn hex_digit(d: u128) -> char
    recommends
        d < 16,
{
    seq!['0', '1', '2', '3', '4', '5', '6', '7', '8', '9', 'a', 'b', 'c', 'd', 'e', 'f'][d as int]
}

/// The 32 hexadecimal digits of `bits`, most significant first.
pub open spec fn hex_digits(bits: u128) -> Seq<char> {
    Seq::new(32, |i: int| hex_digit((bits >> ((124 - 4 * i) as u128)) & 0xf))
}

/// The hyphenated lowercase text of the UUID whose bits are `bits`: its
/// digits in groups of 8, 4, 4, 4 and 12, joined by `-`.
pub open spec fn uuid_text_of(bits: u128) -> Seq<char> {
    let h = hex_digits(bits);
    h.subrange(0, 8) + seq!['-'] + h.subrange(8, 12) + seq!['-'] + h.subrange(12, 16) + seq!['-']
        + h.subrange(16, 20) + seq!['-'] + h.subrange(20, 32)
}

/// Relies on str::to_lowercase, whose result depends on the characters alone.
#[verifier::external_body]
fn lowercase(s: &str) -> (r: String)
    ensures
        r@ == lower_of(s@),
{
    s.to_lowercase()
}

/// Relies on uuid::Uuid::new_v4, read back as its 128 bits with Uuid::as_u128:
/// random bits with the version nibble set to 4 and the variant bits to 10.
#[verifier::external_body]
fn random_uuid_bits() -> (r: u128)
    ensures
        is_v4_layout(r),
{
    uuid::Uuid::new_v4().as_u128()
}

/// Relies on uuid::Uuid::from_u128 and the Display impl of Uuid, which writes
/// the hyphenated lowercase form.
#[verifier::external_body]
fn uuid_text(bits: u128) -> (r: String)
    ensures
        r@ == uuid_text_of(bits),
{
    uuid::Uuid::from_u128(bits).to_string()
}

/// Relies on chrono's `From<SystemTime> for DateTime<Utc>`, applied to
/// SystemTime::now and read as microseconds since the Unix epoch with
/// DateTime::timestamp_micros. A clock set before the epoch gives a negative
/// reading. Every DateTime<Utc> lies between the years -262144 and 262143, so
/// its microsecond count is strictly inside the range of i64.
#[verifier::external_body]
fn clock_micros() -> (r: i64)
    ensures
        i64::MIN < r < i64::MAX,
{
    chrono::DateTime::<chrono::Utc>::from(std::time::SystemTime::now()).timestamp_micros()
}

/// The version and variant bits of a random (version 4) UUID.
pub open spec fn is_v4_layout(bits: u128) -> bool {
    bits & 0xF000_C000_0000_0000_0000u128 == 0x4000_8000_0000_0000_0000u128
}

/// Strongly typed user identifier: the 128 bits of a UUID.
#[derive(Clone, Copy, PartialEq, Eq, Structural, Debug, Hash)]
pub struct UserId(pub u128);

impl UserId {
    /// A fresh random identifier.
    pub fn new() -> (r: UserId)
        ensures
            is_v4_layout(r.0),
    {
        UserId(random_uuid_bits())
    }

    /// The identifier with the given UUID bits.
    pub fn from_uuid(bits: u128) -> (r: UserId)
        ensures
            r.0 == bits,
    {
        UserId(bits)
    }

    /// The hyphenated UUID text of this identifier.
    pub fn to_string(&self) -> (r: String)
        ensures
            r@ == uuid_text_of(self.0),
    {
        uuid_text(self.0)
    }
}

impl Default for UserId {
    fn default() -> (r: UserId)
        ensures
            is_v4_layout(r.0),
    {
        UserId::new()
    }
}

/// A point in time, in microseconds since the Unix epoch (UTC).
#[derive(Clone, Copy, PartialEq, Eq, Structural, Debug, Hash, PartialOrd, Ord)]
pub struct Timestamp(pub i64);

/// The stamp recorded by a mutation made at `now` on an entity last stamped
/// `prev`: the clock reading when it is later than `prev`, otherwise one
/// microsecond after `prev` (saturating at the largest stamp).
pub open spec fn next_stamp(prev: Timestamp, now: Timestamp) -> Timestamp {
    if now.0 > prev.0 {
        now
    } else if prev.0 < i64::MAX {
        Timestamp((prev.0 + 1) as i64)
    } else {
        prev
    }
}

impl Timestamp {
    /// The current time from the system clock.
    pub fn now() -> (r: Timestamp)
        ensures
            i64::MIN < r.0 < i64::MAX,
    {
        Timestamp(clock_micros())
    }

    /// The stamp for a mutation made at `now` after this stamp.
    pub fn refreshed(self, now: Timestamp) -> (r: Timestamp)
        ensures
            r == next_stamp(self, now),
    {
        if now.0 > self.0 {
            now
        } else if self.0 < i64::MAX {
            Timestamp(self.0 + 1)
        } else {
            self
        }
    }
}

/// `at` is the position of the only `@` of `s`, with a non-empty local part
/// before it and a domain part after it that holds a `.`.
pub open spec fn is_address_split(s: Seq<char>, at: int) -> bool {
    &&& 0 < at < s.len() - 1
    &&& s[at] == '@'
    &&& forall|j: int| 0 <= j < s.len() && j != at ==> s[j] != '@'
    &&& exists|k: int| at < k < s.len() && s[k] == '.'
}

/// A well-formed email address: exactly one `@`, a non-empty local part and a
/// domain part holding a `.`.
pub open spec fn is_valid_email(s: Seq<char>) -> bool {
    exists|at: int| is_address_split(s, at)
}

/// Checks the shape of a raw address, naming the first rule it breaks.
fn check_address(value: &str) -> (r: Result<(), DomainError>)
    ensures
        r is Ok <==> is_valid_email(value@),
        r matches Err(e) ==> e is ValidationError,
{
    let n = value.unicode_len();
    if n == 0 {
        return Err(DomainError::validation("Email cannot be empty"));
    }
    let ghost s = value@;
    let mut found: usize = 0;
    let mut at: usize = 0;
    let mut i: usize = 0;
    while i < n
        invariant
            n == s.len(),
            s == value@,
            0 <= i <= n,
            found <= 2,
            found == 0 ==> forall|j: int| 0 <= j < i ==> s[j] != '@',
            found >= 1 ==> at < i && s[at as int] == '@' && forall|j: int| 0 <= j < at ==> s[j] != '@',
            found == 1 ==> forall|j: int| at < j < i ==> s[j] != '@',
            found == 2 ==> exists|j: int| at < j < i && s[j] == '@',
        decreases n - i,
    {
        if value.get_char(i) == '@' {
            if found == 0 {
                at = i;
                found = 1;
            } else {
                found = 2;
            }
        }
        i = i + 1;
    }
    if found == 0 {
        proof {
            assert forall|a: int| !is_address_split(s, a) by {
                if 0 <= a < s.len() {
                    assert(s[a] != '@');
                }
            }
        }
        return Err(DomainError::validation("Email must contain @"));
    }
    if found == 2 || at == 0 || at + 1 == n {
        proof {
            assert forall|a: int| !is_address_split(s, a) by {
                if is_address_split(s, a) {
                    if found == 2 {
                        let j = choose|j: int| at < j < i && s[j] == '@';
                        assert(s[at as int] == '@');
                        assert(s[j] == '@');
                    } else {
                        assert(s[at as int] == '@');
                    }
                }
            }
        }
        return Err(DomainError::validation("Invalid email format"));
    }
    assert(forall|j: int| 0 <= j < n && j != at ==> s[j] != '@');
    let mut k: usize = at + 1;
    while k < n
        invariant
            n == s.len(),
            s == value@,
            0 < at < n - 1,
            s[at as int] == '@',
            forall|j: int| 0 <= j < n && j != at ==> s[j] != '@',
            at < k <= n,
            forall|m: int| at < m < k ==> s[m] != '.',
        decreases n - k,
    {
        if value.get_char(k) == '.' {
            proof {
                assert(is_address_split(s, at as int));
            }
            return Ok(());
        }
        k = k + 1;
    }
    proof {
        assert forall|a: int| !is_address_split(s, a) by {
            if is_address_split(s, a) {
                assert(s[at as int] == '@');
                assert(a == at);
            }
        }
    }
    Err(DomainError::validation("Email domain must contain a dot"))
}

/// A validated email address, stored in lowercase.
#[derive(Debug)]
pub struct Email(String);

impl View for Email {
    type V = Seq<char>;

    closed spec fn view(&self) -> Seq<char> {
        self.0@
    }
}

impl Email {
    /// The lowercase form of some well-formed address.
    #[verifier::type_invariant]
    spec fn normalized(self) -> bool {
        exists|raw: Seq<char>| is_valid_email(raw) && self.0@ == lower_of(raw)
    }

    /// Validates `value` and keeps its lowercase form.
    pub fn new(value: &str) -> (r: Result<Email, DomainError>)
        ensures
            r is Ok <==> is_valid_email(value@),
            r matches Ok(e) ==> e@ == lower_of(value@),
            r matches Err(e) ==> e is ValidationError,
    {
        match check_address(value) {
            Ok(()) => {
                let text = lowercase(value);
                proof {
                    assert(is_valid_email(value@) && text@ == lower_of(value@));
                }
                Ok(Email(text))
            },
            Err(e) => Err(e),
        }
    }

    /// The address as text.
    pub fn as_str(&self) -> (r: &str)
        ensures
            r@ == self@,
    {
        self.0.as_str()
    }

    /// The address as an owned string.
    pub fn to_string(&self) -> (r: String)
        ensures
            r@ == self@,
    {
        self.0.clone()
    }
}

impl Clone for Email {
    fn clone(&self) -> (r: Email)
        ensures
            r == *self,
    {
        proof {
            use_type_invariant(self);
        }
        Email(self.0.clone())
    }
}

impl PartialEq for Email {
    fn eq(&self, other: &Email) -> (r: bool) {
        self.0 == other.0
    }
}

impl vstd::std_specs::cmp::PartialEqSpecImpl for Email {
    open spec fn obeys_eq_spec() -> bool {
        true
    }

    open spec fn eq_spec(&self, other: &Email) -> bool {
        self@ == other@
    }
}

impl Eq for Email {}

/// A registered user. The id never changes; every mutation refreshes
/// `updated_at`.
#[derive(Debug)]
pub struct User {
    /// Unique identifier.
    pub id: UserId,
    /// The user's email address.
    pub email: Email,
    /// The user's display name.
    pub name: String,
    /// When the user was created.
    pub created_at: Timestamp,
    /// When the user was last changed.
    pub updated_at: Timestamp,
}

impl Clone for User {
    fn clone(&self) -> (r: User)
        ensures
            r == *self,
    {
        User {
            id: self.id,
            email: self.email.clone(),
            name: self.name.clone(),
            created_at: self.created_at,
            updated_at: self.updated_at,
        }
    }
}

impl User {
    /// A new user with a fresh id, created and last updated now.
    pub fn new(email: Email, name: &str) -> (r: User)
        ensures
            r.email == email,
            r.name@ == name@,
            is_v4_layout(r.id.0),
            r.created_at == r.updated_at,
            r.created_at.0 < i64::MAX,
    {
        let now = Timestamp::now();
        User { id: UserId::new(), email, name: String::from_str(name), created_at: now, updated_at: now }
    }

    /// Renames the user as of the clock reading `now`.
    pub fn update_name_at(&mut self, name: &str, now: Timestamp)
        ensures
            final(self).name@ == name@,
            final(self).updated_at == next_stamp(old(self).updated_at, now),
            final(self).id == old(self).id,
            final(self).email == old(self).email,
            final(self).created_at == old(self).created_at,
    {
        self.name = String::from_str(name);
        self.updated_at = self.updated_at.refreshed(now);
    }

    /// Renames the user, refreshing `updated_at` from the system clock.
    pub fn update_name(&mut self, name: &str)
        ensures
            final(self).name@ == name@,
            old(self).updated_at.0 < i64::MAX ==> final(self).updated_at.0 > old(self).updated_at.0,
            final(self).updated_at.0 >= old(self).updated_at.0,
            final(self).id == old(self).id,
            final(self).email == old(self).email,
            final(self).created_at == old(self).created_at,
    {
        let now = Timestamp::now();
        self.update_name_at(name, now);
    }

    /// Changes the email address as of the clock reading `now`.
    pub fn update_email_at(&mut self, email: Email, now: Timestamp)
        ensures
            final(self).email == email,
            final(self).updated_at == next_stamp(old(self).updated_at, now),
            final(self).id == old(self).id,
            final(self).name == old(self).name,
            final(self).created_at == old(self).created_at,
    {
        self.email = email;
        self.updated_at = self.updated_at.refreshed(now);
    }

    /// Changes the email address, refreshing `updated_at` from the system clock.
    pub fn update_email(&mut self, email: Email)
        ensures
            final(self).email == email,
            old(self).updated_at.0 < i64::MAX ==> final(self).updated_at.0 > old(self).updated_at.0,
            final(self).updated_at.0 >= old(self).updated_at.0,
            final(self).id == old(self).id,
            final(self).name == old(self).name,
            final(self).created_at == old(self).created_at,
    {
        let now = Timestamp::now();
        self.update_email_at(email, now);
    }
}

} // verus!
