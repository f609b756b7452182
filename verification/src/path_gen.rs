use vstd::prelude::*;

verus! {

/// A character a generated name token may contain: a lowercase
/// hexadecimal digit.
pub open spec fn is_lower_hex(c: char) -> bool {
    ('0' <= c && c <= '9') || ('a' <= c && c <= 'f')
}

/// A freshly generated name token: thirty-two lowercase hexadecimal
/// digits, the compact rendering of a 128-bit random identifier.
pub open spec fn is_token(t: Seq<char>) -> bool {
    t.len() == 32 && (forall|i: int| 0 <= i < t.len() ==> is_lower_hex(#[trigger] t[i]))
}

/// The extension with one optional leading `.` stripped.
pub open spec fn norm_ext(e: Seq<char>) -> Seq<char> {
    if e.len() > 0 && e[0] == '.' {
        e.drop_first()
    } else {
        e
    }
}

/// The file name a token and an extension yield: the token alone when the
/// normalized extension is empty, else the token, a dot, and the extension.
pub open spec fn file_name_for(t: Seq<char>, e: Seq<char>) -> Seq<char> {
    if norm_ext(e).len() == 0 {
        t
    } else {
        t + seq!['.'] + norm_ext(e)
    }
}

/// A name placed under a base directory, with a separator added unless the
/// base already ends in one or is empty.
pub open spec fn joined(base: Seq<char>, name: Seq<char>) -> Seq<char> {
    if base.len() == 0 {
        name
    } else if base[base.len() - 1] == '/' {
        base + name
    } else {
        base + seq!['/'] + name
    }
}

/// The full path a constructor synthesizes from a base directory, a fresh
/// token and a requested extension.
pub open spec fn generated_path(base: Seq<char>, t: Seq<char>, e: Seq<char>) -> Seq<char> {
    joined(base, file_name_for(t, e))
}

/// Relies on `uuid::Uuid::new_v4` and the display form of `uuid::fmt::Simple`:
/// a fresh random 128-bit identifier rendered as exactly thirty-two lowercase
/// hexadecimal digits.
#[verifier::external_body]
fn fresh_token() -> (r: String)
    ensures
        is_token(r@),
{
    uuid::Uuid::new_v4().simple().to_string()
}

/// Strip one optional leading `.` from an extension.
fn strip_leading_dot(extension: &str) -> (r: &str)
    ensures
        r@ == norm_ext(extension@),
{
    let n = extension.unicode_len();
    if n > 0 && extension.get_char(0) == '.' {
        let rest = extension.substring_char(1, n);
        proof {
            assert(rest@ =~= extension@.drop_first());
        }
        rest
    } else {
        extension
    }
}

/// Append the normalized extension, if any, to a freshly generated token.
fn file_name(token: String, extension: &str) -> (r: String)
    ensures
        r@ == file_name_for(token@, extension@),
{
    let ghost tok = token@;
    let ext = strip_leading_dot(extension);
    if ext.unicode_len() == 0 {
        token
    } else {
        let mut s = token;
        s.append(".");
        s.append(ext);
        proof {
            reveal_strlit(".");
            assert(s@ =~= file_name_for(tok, extension@));
        }
        s
    }
}

/// Place a file name under a base directory.
fn join_path(base: &str, name: &str) -> (r: String)
    ensures
        r@ == joined(base@, name@),
{
    let n = base.unicode_len();
    if n == 0 {
        String::from_str(name)
    } else if base.get_char(n - 1) == '/' {
        String::from_str(base).concat(name)
    } else {
        let mut s = String::from_str(base);
        s.append("/");
        s.append(name);
        proof {
            reveal_strlit("/");
            assert(s@ =~= joined(base@, name@));
        }
        s
    }
}

/// Synthesize a fresh path under `base`, carrying `extension`.
pub(crate) fn create_path_with_ext_in(base: &str, extension: &str) -> (r: String)
    ensures
        exists|t: Seq<char>|
            is_token(t) && r@ == generated_path(base@, t, extension@),
{
    let token = fresh_token();
    let ghost tok = token@;
    let name = file_name(token, extension);
    let path = join_path(base, name.as_str());
    proof {
        assert(is_token(tok) && path@ == generated_path(base@, tok, extension@));
    }
    path
}

/// Synthesize a fresh path under `base`, with no extension.
pub(crate) fn create_path_in(base: &str) -> (r: String)
    ensures
        exists|t: Seq<char>|
            is_token(t) && r@ == generated_path(base@, t, Seq::<char>::empty()),
{
    let r = create_path_with_ext_in(base, "");
    proof {
        reveal_strlit("");
        let t = choose|t: Seq<char>| is_token(t) && r@ == generated_path(base@, t, ""@);
        assert(""@ =~= Seq::<char>::empty());
        assert(is_token(t) && r@ == generated_path(base@, t, Seq::<char>::empty()));
    }
    r
}

/// A generated path with a nonempty extension ends in a dot followed by
/// exactly the normalized extension.
pub proof fn lemma_generated_path_extension(base: Seq<char>, t: Seq<char>, e: Seq<char>)
    requires
        is_token(t),
        norm_ext(e).len() > 0,
    ensures
        ({
            let p = generated_path(base, t, e);
            let tail = seq!['.'] + norm_ext(e);
            p.len() >= tail.len() && p.subrange(p.len() - tail.len(), p.len() as int) == tail
        }),
{
    let p = generated_path(base, t, e);
    let tail = seq!['.'] + norm_ext(e);
    assert(p.subrange(p.len() - tail.len(), p.len() as int) =~= tail);
}

/// Extensions are accepted with or without one leading dot: prefixing a
/// dot-free extension with `.` yields the same generated path.
pub proof fn lemma_extension_dot_equivalent(base: Seq<char>, t: Seq<char>, e: Seq<char>)
    requires
        e.len() == 0 || e[0] != '.',
    ensures
        generated_path(base, t, seq!['.'] + e) == generated_path(base, t, e),
{
    assert((seq!['.'] + e).drop_first() =~= e);
    assert(generated_path(base, t, seq!['.'] + e) =~= generated_path(base, t, e));
}

} // verus!
