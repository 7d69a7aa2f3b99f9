use vstd::prelude::*;

verus! {

/// A user; `id == 0` means not yet persisted.
#[derive(Debug)]
pub struct User {
    pub id: i32,
    pub name: String,
    pub email: String,
}

/// Multi-factor configuration; `secret == None` means enrolment is pending.
#[derive(Debug)]
pub struct MfaConfig {
    pub mfa_id: String,
    pub secret: Option<String>,
}

/// Stored password and optional multi-factor configuration of one user.
/// `id == 0` means not yet persisted.
#[derive(Debug)]
pub struct Credentials {
    pub id: i32,
    pub password: String,
    pub user_id: i32,
    pub mfa_config: Option<MfaConfig>,
}

/// The flat form of credentials as stored: the multi-factor fields are two
/// nullable columns.
#[derive(Debug)]
pub struct CredentialsRow {
    pub id: i32,
    pub password: String,
    pub mfa_id: Option<String>,
    pub mfa_secret: Option<String>,
    pub user_id: i32,
}

fn copy_text(s: &Option<String>) -> (r: Option<String>)
    ensures
        r == *s,
{
    match s {
        Some(t) => Some(t.clone()),
        None => None,
    }
}

impl User {
    pub fn new(id: i32, name: String, email: String) -> (r: User)
        ensures
            r.id == id,
            r.name == name,
            r.email == email,
    {
        User { id, name, email }
    }

    /// A field-by-field copy.
    pub fn duplicate(&self) -> (r: User)
        ensures
            r == *self,
    {
        User { id: self.id, name: self.name.clone(), email: self.email.clone() }
    }
}

impl MfaConfig {
    /// Configuration whose secret has not been issued yet.
    pub fn new(mfa_id: &str) -> (r: MfaConfig)
        ensures
            r.mfa_id@ == mfa_id@,
            r.secret is None,
    {
        MfaConfig { mfa_id: String::from_str(mfa_id), secret: None }
    }

    pub fn with_secret(mfa_id: &str, secret: &str) -> (r: MfaConfig)
        ensures
            r.mfa_id@ == mfa_id@,
            r.secret matches Some(s) && s@ == secret@,
    {
        MfaConfig { mfa_id: String::from_str(mfa_id), secret: Some(String::from_str(secret)) }
    }

    pub fn duplicate(&self) -> (r: MfaConfig)
        ensures
            r == *self,
    {
        MfaConfig { mfa_id: self.mfa_id.clone(), secret: copy_text(&self.secret) }
    }
}

impl Credentials {
    /// Credentials without multi-factor configuration.
    pub fn new(id: i32, password: String, user_id: i32) -> (r: Credentials)
        ensures
            r.id == id,
            r.password == password,
            r.user_id == user_id,
            r.mfa_config is None,
    {
        Credentials { id, password, user_id, mfa_config: None }
    }

    pub fn set_mfa(&mut self, mfa_config: MfaConfig)
        ensures
            final(self).mfa_config == Some(mfa_config),
            final(self).id == old(self).id,
            final(self).password == old(self).password,
            final(self).user_id == old(self).user_id,
    {
        self.mfa_config = Some(mfa_config);
    }

    pub fn duplicate(&self) -> (r: Credentials)
        ensures
            r == *self,
    {
        let mfa_config = match &self.mfa_config {
            Some(m) => Some(m.duplicate()),
            None => None,
        };
        Credentials { id: self.id, password: self.password.clone(), user_id: self.user_id, mfa_config }
    }

    /// The stored form of these credentials.
    pub open spec fn row_spec(&self) -> CredentialsRow {
        CredentialsRow {
            id: self.id,
            password: self.password,
            mfa_id: match self.mfa_config {
                Some(m) => Some(m.mfa_id),
                None => None,
            },
            mfa_secret: match self.mfa_config {
                Some(m) => m.secret,
                None => None,
            },
            user_id: self.user_id,
        }
    }

    /// Flattens the multi-factor configuration into two nullable columns; an
    /// absent secret stays absent.
    pub fn to_row(&self) -> (r: CredentialsRow)
        ensures
            r == self.row_spec(),
    {
        let (mfa_id, mfa_secret) = match &self.mfa_config {
            Some(m) => (Some(m.mfa_id.clone()), copy_text(&m.secret)),
            None => (None, None),
        };
        CredentialsRow {
            id: self.id,
            password: self.password.clone(),
            mfa_id,
            mfa_secret,
            user_id: self.user_id,
        }
    }
}

impl CredentialsRow {
    /// The credentials that a stored row holds: multi-factor configuration
    /// exists exactly when its identifier column is set.
    pub open spec fn credentials_spec(&self) -> Credentials {
        Credentials {
            id: self.id,
            password: self.password,
            user_id: self.user_id,
            mfa_config: match self.mfa_id {
                Some(i) => Some(MfaConfig { mfa_id: i, secret: self.mfa_secret }),
                None => None,
            },
        }
    }

    pub fn to_credentials(&self) -> (r: Credentials)
        ensures
            r == self.credentials_spec(),
    {
        let mfa_config = match &self.mfa_id {
            Some(i) => Some(MfaConfig { mfa_id: i.clone(), secret: copy_text(&self.mfa_secret) }),
            None => None,
        };
        Credentials {
            id: self.id,
            password: self.password.clone(),
            user_id: self.user_id,
            mfa_config,
        }
    }

    pub fn duplicate(&self) -> (r: CredentialsRow)
        ensures
            r == *self,
    {
        CredentialsRow {
            id: self.id,
            password: self.password.clone(),
            mfa_id: copy_text(&self.mfa_id),
            mfa_secret: copy_text(&self.mfa_secret),
            user_id: self.user_id,
        }
    }
}

/// Storing credentials and reading them back gives the same credentials,
/// multi-factor configuration and absent secret included.
pub proof fn lemma_row_round_trip(c: Credentials)
    ensures
        c.row_spec().credentials_spec() == c,
{
    match c.mfa_config {
        Some(m) => {},
        None => {},
    }
}

/// Whitespace that email normalisation strips from both ends.
pub open spec fn is_email_space(c: char) -> bool {
    c == ' ' || c == '\t' || c == '\n' || c == '\r'
}

/// `s` without leading whitespace.
pub open spec fn trim_start(s: Seq<char>) -> Seq<char>
    decreases s.len(),
{
    if s.len() > 0 && is_email_space(s[0]) {
        trim_start(s.drop_first())
    } else {
        s
    }
}

/// `s` without trailing whitespace.
pub open spec fn trim_end(s: Seq<char>) -> Seq<char>
    decreases s.len(),
{
    if s.len() > 0 && is_email_space(s.last()) {
        trim_end(s.drop_last())
    } else {
        s
    }
}

/// The code point of `c` with ASCII upper case letters folded to lower case.
pub open spec fn folded_code(c: char) -> u32 {
    if 'A' <= c <= 'Z' {
        (c as u32 + 32) as u32
    } else {
        c as u32
    }
}

/// An email as compared on lookup: surrounding whitespace dropped and ASCII
/// letters folded to lower case.
pub open spec fn normalized_email(s: Seq<char>) -> Seq<u32> {
    trim_end(trim_start(s)).map_values(|c: char| folded_code(c))
}

fn fold_code(c: char) -> (r: u32)
    ensures
        r == folded_code(c),
{
    if 'A' <= c && c <= 'Z' {
        c as u32 + 32
    } else {
        c as u32
    }
}

fn is_space_char(c: char) -> (r: bool)
    ensures
        r == is_email_space(c),
{
    c == ' ' || c == '\t' || c == '\n' || c == '\r'
}

/// The bounds of `s` once surrounding whitespace is dropped.
fn trimmed_bounds(s: &str) -> (r: (usize, usize))
    ensures
        r.0 <= r.1 <= s@.len(),
        s@.subrange(r.0 as int, r.1 as int) == trim_end(trim_start(s@)),
{
    let n = s.unicode_len();
    let mut lo: usize = 0;
    proof {
        assert(s@.subrange(0, n as int) =~= s@);
    }
    while lo < n && is_space_char(s.get_char(lo))
        invariant
            n == s@.len(),
            lo <= n,
            trim_start(s@) == trim_start(s@.subrange(lo as int, n as int)),
        decreases n - lo,
    {
        proof {
            let t = s@.subrange(lo as int, n as int);
            assert(t[0] == s@[lo as int]);
            assert(t.drop_first() =~= s@.subrange(lo + 1, n as int));
            assert(trim_start(t) == trim_start(t.drop_first()));
        }
        lo = lo + 1;
    }
    proof {
        assert(trim_start(s@) == s@.subrange(lo as int, n as int));
    }
    let mut hi: usize = n;
    while hi > lo && is_space_char(s.get_char(hi - 1))
        invariant
            n == s@.len(),
            lo <= hi <= n,
            trim_end(trim_start(s@)) == trim_end(s@.subrange(lo as int, hi as int)),
        decreases hi - lo,
    {
        proof {
            let t = s@.subrange(lo as int, hi as int);
            assert(t.last() == s@[hi - 1]);
            assert(t.drop_last() =~= s@.subrange(lo as int, hi - 1));
            assert(trim_end(t) == trim_end(t.drop_last()));
        }
        hi = hi - 1;
    }
    (lo, hi)
}

/// Whether two emails are the same once normalised.
pub fn emails_match(a: &str, b: &str) -> (r: bool)
    ensures
        r == (normalized_email(a@) == normalized_email(b@)),
{
    let (alo, ahi) = trimmed_bounds(a);
    let (blo, bhi) = trimmed_bounds(b);
    let ghost ta = a@.subrange(alo as int, ahi as int);
    let ghost tb = b@.subrange(blo as int, bhi as int);
    if ahi - alo != bhi - blo {
        proof {
            assert(normalized_email(a@).len() != normalized_email(b@).len());
        }
        return false;
    }
    let len = ahi - alo;
    let mut i: usize = 0;
    while i < len
        invariant
            len == ahi - alo,
            len == bhi - blo,
            alo <= ahi <= a@.len(),
            blo <= bhi <= b@.len(),
            ta == a@.subrange(alo as int, ahi as int),
            tb == b@.subrange(blo as int, bhi as int),
            ta == trim_end(trim_start(a@)),
            tb == trim_end(trim_start(b@)),
            i <= len,
            forall|j: int| 0 <= j < i ==> folded_code(ta[j]) == folded_code(tb[j]),
        decreases len - i,
    {
        if fold_code(a.get_char(alo + i)) != fold_code(b.get_char(blo + i)) {
            proof {
                assert(normalized_email(a@)[i as int] != normalized_email(b@)[i as int]);
            }
            return false;
        }
        i = i + 1;
    }
    proof {
        assert(normalized_email(a@) =~= normalized_email(b@));
    }
    true
}

} // verus!
