use vstd::prelude::*;

use crate::clock::{is_clock_reading, read_clock, Timestamp, MAX_TIMESTAMP};

verus! {

/// The two roles a user of the service can hold.
#[derive(Clone, Copy, Debug, PartialEq, Eq, Structural)]
pub enum Role {
    User,
    Admin,
}

/// ASCII lower-casing of one character; other characters are unchanged.
pub open spec fn ascii_lower(c: char) -> char {
    if 'A' <= c && c <= 'Z' {
        ((c as u32) + 32) as char
    } else {
        c
    }
}

/// ASCII lower-casing of a whole string.
pub open spec fn ascii_lowercase(s: Seq<char>) -> Seq<char> {
    s.map_values(|c: char| ascii_lower(c))
}

/// The role name that grants administrator rights, in lower case.
pub open spec fn admin_name() -> Seq<char> {
    seq!['a', 'd', 'm', 'i', 'n']
}

/// The role a textual role name denotes: "admin" in any letter case is
/// `Admin`, everything else is `User`.
pub open spec fn role_named(s: Seq<char>) -> Role {
    if ascii_lowercase(s) == admin_name() {
        Role::Admin
    } else {
        Role::User
    }
}

/// Compares one character, ignoring ASCII case, with a lower-case ASCII letter.
fn char_matches_lower(c: char, lower: char) -> (r: bool)
    requires
        'a' <= lower && lower <= 'z',
    ensures
        r == (ascii_lower(c) == lower),
{
    if c == lower {
        assert(ascii_lower(c) == lower);
        true
    } else if 'A' <= c && c <= 'Z' {
        let up = c as u32;
        let r = up + 32 == lower as u32;
        proof {
            vstd::utf8::char_u32_cast(lower, lower as u32);
            if ((c as u32) + 32) as char == lower {
                assert((((c as u32) + 32) as char) as u32 == lower as u32);
            }
        }
        r
    } else {
        false
    }
}

/// The text a role is displayed as.
pub open spec fn role_text(r: Role) -> Seq<char> {
    match r {
        Role::User => seq!['U', 's', 'e', 'r'],
        Role::Admin => seq!['A', 'd', 'm', 'i', 'n'],
    }
}

impl Role {
    /// Reads a role name: "admin", in any letter case, is `Admin`; anything
    /// else is `User`. Only ASCII letters are folded: no other character
    /// lower-cases to a letter of "admin", so this agrees with comparing the
    /// fully lower-cased name.
    pub fn from_str(role: &str) -> (r: Role)
        ensures
            r == role_named(role@),
    {
        let n = role.unicode_len();
        if n != 5 {
            assert(ascii_lowercase(role@).len() != admin_name().len());
            return Role::User;
        }
        let c0 = char_matches_lower(role.get_char(0), 'a');
        let c1 = char_matches_lower(role.get_char(1), 'd');
        let c2 = char_matches_lower(role.get_char(2), 'm');
        let c3 = char_matches_lower(role.get_char(3), 'i');
        let c4 = char_matches_lower(role.get_char(4), 'n');
        let ghost lowered = ascii_lowercase(role@);
        if c0 && c1 && c2 && c3 && c4 {
            assert(lowered =~= admin_name());
            Role::Admin
        } else {
            assert(lowered != admin_name()) by {
                if lowered == admin_name() {
                    assert(lowered[0] == 'a' && lowered[1] == 'd' && lowered[2] == 'm');
                    assert(lowered[3] == 'i' && lowered[4] == 'n');
                }
            }
            Role::User
        }
    }

    /// The role's display text: "User" or "Admin".
    pub fn to_string(&self) -> (r: String)
        ensures
            r@ == role_text(*self),
    {
        proof {
            reveal_strlit("User");
            reveal_strlit("Admin");
        }
        match self {
            Role::User => "User".to_owned(),
            Role::Admin => "Admin".to_owned(),
        }
    }
}

/// A user who has logged in: their id, role, and the time of the login.
#[derive(Clone, Debug)]
pub struct AuthUser {
    pub id: String,
    pub role: Role,
    pub login_at: Timestamp,
}

impl AuthUser {
    /// Records a login of user `id` holding the role named `role`, at the
    /// current time.
    pub fn new(id: String, role: String) -> (r: AuthUser)
        ensures
            r.id@ == id@,
            r.role == role_named(role@),
            0 <= r.login_at.secs <= MAX_TIMESTAMP,
            r.login_at.nanos < 1_000_000_000,
            is_clock_reading(r.login_at),
    {
        let role = Role::from_str(role.as_str());
        AuthUser { id, role, login_at: read_clock() }
    }

    /// The display text of a logged-in user: their id.
    pub fn to_string(&self) -> (r: String)
        ensures
            r@ == self.id@,
    {
        self.id.clone()
    }
}

/// Role names that differ only in ASCII letter case name the same role.
pub proof fn lemma_role_name_ignores_letter_case(a: Seq<char>, b: Seq<char>)
    requires
        ascii_lowercase(a) == ascii_lowercase(b),
    ensures
        role_named(a) == role_named(b),
{
}

/// Every spelling of "admin" in ASCII letters of either case names `Admin`,
/// and only those do.
pub proof fn lemma_admin_in_any_letter_case(s: Seq<char>)
    ensures
        role_named(s) == Role::Admin <==> ascii_lowercase(s) == admin_name(),
{
}

/// Reading back the display text of a role gives the same role.
pub proof fn lemma_role_text_round_trip(r: Role)
    ensures
        role_named(role_text(r)) == r,
{
    vstd::utf8::char_u32_cast('a', 97);
    vstd::utf8::char_u32_cast('u', 117);
    let t = role_text(r);
    let low = ascii_lowercase(t);
    match r {
        Role::Admin => {
            assert(ascii_lower('A') == 'a');
            assert(low =~= admin_name());
        },
        Role::User => {
            assert(ascii_lower('U') == 'u');
            assert(low[0] == 'u');
            assert(low != admin_name());
        },
    }
}

} // verus!
