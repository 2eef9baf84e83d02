//! The stub user lookup and the JSON rendering of its records.

use vstd::prelude::*;
use vstd::string::StrSliceExecFns;
use vstd::string::StringExecFns;

verus! {

/// A user record as the stub data source returns it.
#[derive(Debug)]
pub struct User {
    pub id: u64,
    pub name: String,
}

/// The stub data source's recoverable failure: the lookup timed out.
#[derive(Debug)]
pub struct QueryTimeoutError;

/// Identifiers outside the stub's known set time out.
pub open spec fn lookup_times_out(id: u64) -> bool {
    !(1 <= id <= 3)
}

/// Looks a user up by numeric id in the in-memory stub: a found record,
/// a missing one, or a recoverable timeout for every other id.
pub fn get_user_by_id(id: u64) -> (r: Result<Option<User>, QueryTimeoutError>)
    ensures
        id == 1 ==> (r matches Ok(Some(u)) && u.id == 1 && u.name@ == "bob"@),
        id == 2 ==> (r matches Ok(Some(u)) && u.id == 1 && u.name@ == "john"@),
        id == 3 ==> r matches Ok(None::<User>),
        lookup_times_out(id) <==> r is Err,
{
    if id == 1 {
        Ok(Some(User { id: 1, name: String::from_str("bob") }))
    } else if id == 2 {
        Ok(Some(User { id: 1, name: String::from_str("john") }))
    } else if id == 3 {
        Ok(None)
    } else {
        Err(QueryTimeoutError)
    }
}

/// The decimal digit character for `d`.
pub open spec fn decimal_digit(d: nat) -> char
    recommends
        d < 10,
{
    (((d + 48) as u8) as char)
}

/// The decimal rendering of `n`, most significant digit first.
pub open spec fn u64_decimal(n: nat) -> Seq<char>
    decreases n,
{
    if n < 10 {
        seq![decimal_digit(n)]
    } else {
        u64_decimal(n / 10).push(decimal_digit(n % 10))
    }
}

/// Relies on `String::push`: appends exactly the given character.
#[verifier::external_body]
fn push_char(s: &mut String, c: char)
    ensures
        final(s)@ == old(s)@.push(c),
{
    s.push(c);
}

/// Renders `n` in decimal.
pub fn u64_to_string(n: u64) -> (r: String)
    ensures
        r@ == u64_decimal(n as nat),
    decreases n,
{
    if n < 10 {
        let mut s = String::new();
        push_char(&mut s, (n as u8 + 48) as char);
        proof {
            assert(s@ =~= seq![decimal_digit(n as nat)]);
        }
        s
    } else {
        let mut s = u64_to_string(n / 10);
        push_char(&mut s, ((n % 10) as u8 + 48) as char);
        proof {
            assert(s@ =~= u64_decimal(n as nat));
        }
        s
    }
}

/// The hexadecimal digit character for `d`.
pub open spec fn hex_digit(d: nat) -> char
    recommends
        d < 16,
{
    if d < 10 {
        ((d + 48) as u8) as char
    } else {
        ((d + 87) as u8) as char
    }
}

fn hex_digit_char(d: u8) -> (c: char)
    requires
        d < 16,
    ensures
        c == hex_digit(d as nat),
{
    if d < 10 {
        (d + 48) as char
    } else {
        (d + 87) as char
    }
}

/// How one character is written inside a JSON string literal: quote and
/// backslash are escaped, control characters take the `\u00XX` form, and
/// every other character stands as itself.
pub open spec fn json_escape_char(c: char) -> Seq<char> {
    if c == '"' {
        seq!['\\', '"']
    } else if c == '\\' {
        seq!['\\', '\\']
    } else if (c as u32) < 32 {
        seq!['\\', 'u', '0', '0', hex_digit((c as u32 / 16) as nat), hex_digit(
            (c as u32 % 16) as nat,
        )]
    } else {
        seq![c]
    }
}

/// The JSON-escaped form of a character sequence.
pub open spec fn json_escape(s: Seq<char>) -> Seq<char>
    decreases s.len(),
{
    if s.len() == 0 {
        Seq::empty()
    } else {
        json_escape_char(s[0]) + json_escape(s.drop_first())
    }
}

proof fn lemma_json_escape_snoc(s: Seq<char>)
    requires
        s.len() > 0,
    ensures
        json_escape(s) == json_escape(s.drop_last()) + json_escape_char(s.last()),
    decreases s.len(),
{
    if s.len() == 1 {
        assert(s.drop_last() =~= Seq::<char>::empty());
        assert(s.drop_first() =~= Seq::<char>::empty());
        assert(json_escape(s) =~= json_escape(s.drop_last()) + json_escape_char(s.last()));
    } else {
        lemma_json_escape_snoc(s.drop_first());
        assert(s.drop_first().drop_last() =~= s.drop_last().drop_first());
        assert(s.drop_first().last() == s.last());
        assert(s.drop_last()[0] == s[0]);
        assert(json_escape(s) =~= json_escape(s.drop_last()) + json_escape_char(s.last()));
    }
}

/// Escapes a string for inclusion inside a JSON string literal.
pub fn json_escape_string(s: &str) -> (r: String)
    ensures
        r@ == json_escape(s@),
{
    let n = s.unicode_len();
    let mut r = String::new();
    let mut i: usize = 0;
    while i < n
        invariant
            n == s@.len(),
            i <= n,
            r@ == json_escape(s@.take(i as int)),
        decreases n - i,
    {
        let c = s.get_char(i);
        if c == '"' {
            push_char(&mut r, '\\');
            push_char(&mut r, '"');
        } else if c == '\\' {
            push_char(&mut r, '\\');
            push_char(&mut r, '\\');
        } else {
            let u = c as u32;
            if u < 32 {
                push_char(&mut r, '\\');
                push_char(&mut r, 'u');
                push_char(&mut r, '0');
                push_char(&mut r, '0');
                push_char(&mut r, hex_digit_char((u / 16) as u8));
                push_char(&mut r, hex_digit_char((u % 16) as u8));
            } else {
                push_char(&mut r, c);
            }
        }
        proof {
            lemma_json_escape_snoc(s@.take(i as int + 1));
            assert(s@.take(i as int + 1).drop_last() =~= s@.take(i as int));
            assert(s@.take(i as int + 1).last() == s@[i as int]);
            assert(r@ =~= json_escape(s@.take(i as int)) + json_escape_char(s@[i as int]));
        }
        i += 1;
    }
    proof {
        assert(s@.take(n as int) =~= s@);
    }
    r
}

/// The JSON object the service returns for a user.
pub open spec fn user_json_model(id: nat, name: Seq<char>) -> Seq<char> {
    "{\"id\":"@ + u64_decimal(id) + ",\"name\":\""@ + json_escape(name) + "\"}"@
}

/// Serializes a user as the JSON object `{"id":<id>,"name":"<name>"}`.
pub fn user_json(u: &User) -> (r: String)
    ensures
        r@ == user_json_model(u.id as nat, u.name@),
{
    let mut r = String::from_str("{\"id\":");
    let digits = u64_to_string(u.id);
    r.append(digits.as_str());
    r.append(",\"name\":\"");
    let escaped = json_escape_string(u.name.as_str());
    r.append(escaped.as_str());
    r.append("\"}");
    proof {
        assert(r@ =~= user_json_model(u.id as nat, u.name@));
    }
    r
}

} // verus!
