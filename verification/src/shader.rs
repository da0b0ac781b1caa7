//! Shader synthesis: the text of the per-iterator dispatch that the compute
//! kernel runs, and its substitution into the kernel's template.

use vstd::prelude::*;
use vstd::slice::slice_subrange;
use vstd::slice::slice_to_vec;
use vstd::string::StringSliceAdditionalSpecFns;
use vstd::utf8::encode_utf8;
use crate::scene::Iterator;
use crate::scene::RealParam;
use crate::scene::Vec3Param;

verus! {

/// Why a template could not take the synthesized text.
#[derive(Clone, Copy, Debug, PartialEq, Eq, Structural)]
pub enum TemplateError {
    /// The template does not hold the token.
    TokenMissing,
    /// The template holds the token more than once.
    TokenRepeated,
}

/// `needle` stands in `hay` at position `i`.
pub open spec fn occurs_at(hay: Seq<u8>, needle: Seq<u8>, i: int) -> bool {
    0 <= i && i + needle.len() <= hay.len() && hay.subrange(i, i + needle.len()) == needle
}

/// `needle` stands in `hay` at exactly one position.
pub open spec fn occurs_once(hay: Seq<u8>, needle: Seq<u8>) -> bool {
    exists|i: int| occurs_at(hay, needle, i) && forall|j: int| occurs_at(hay, needle, j) ==> j == i
}

/// `needle` stands in `hay` at two different positions.
pub open spec fn occurs_twice(hay: Seq<u8>, needle: Seq<u8>) -> bool {
    exists|i: int, j: int| i != j && occurs_at(hay, needle, i) && occurs_at(hay, needle, j)
}

/// `hay` with the `len` bytes at position `i` replaced by `body`.
pub open spec fn spliced(hay: Seq<u8>, i: int, len: int, body: Seq<u8>) -> Seq<u8> {
    hay.subrange(0, i) + body + hay.subrange(i + len, hay.len() as int)
}

/// Whether `needle` stands in `hay` at position `i`.
pub fn matches_at(hay: &[u8], needle: &[u8], i: usize) -> (r: bool)
    ensures
        r == occurs_at(hay@, needle@, i as int),
{
    if i > hay.len() || needle.len() > hay.len() - i {
        return false;
    }
    let mut k: usize = 0;
    while k < needle.len()
        invariant
            k <= needle@.len(),
            i + needle@.len() <= hay@.len(),
            hay@.len() == hay.len(),
            forall|j: int| 0 <= j < k ==> hay@[i + j] == needle@[j],
        decreases needle@.len() - k,
    {
        if hay[i + k] != needle[k] {
            proof {
                assert(hay@.subrange(i as int, i + needle@.len())[k as int] == hay@[i + k]);
            }
            return false;
        }
        k += 1;
    }
    proof {
        assert(hay@.subrange(i as int, i + needle@.len()) =~= needle@);
    }
    true
}

/// The first position at or after `start` at which `needle` stands in `hay`.
pub fn find_from(hay: &[u8], needle: &[u8], start: usize) -> (r: Option<usize>)
    ensures
        r.is_some() ==> start <= r.unwrap() && occurs_at(hay@, needle@, r.unwrap() as int) && forall|j: int|
            start <= j < r.unwrap() ==> !occurs_at(hay@, needle@, j),
        r.is_none() ==> forall|j: int| start <= j ==> !occurs_at(hay@, needle@, j),
{
    let mut i: usize = start;
    while i < hay.len()
        invariant
            start <= i,
            hay@.len() == hay.len(),
            forall|j: int| start <= j < i ==> !occurs_at(hay@, needle@, j),
        decreases hay@.len() - i,
    {
        if matches_at(hay, needle, i) {
            return Some(i);
        }
        i += 1;
    }
    if matches_at(hay, needle, i) {
        return Some(i);
    }
    None
}

/// Replaces the one occurrence of `token` in `template` by `body`. A template
/// without the token, or with more than one occurrence of it, is refused.
pub fn substitute(template: &[u8], token: &[u8], body: &[u8]) -> (r: Result<Vec<u8>, TemplateError>)
    ensures
        r.is_ok() <==> occurs_once(template@, token@),
        r == Err::<Vec<u8>, TemplateError>(TemplateError::TokenMissing) <==> (forall|i: int|
            !occurs_at(template@, token@, i)),
        r == Err::<Vec<u8>, TemplateError>(TemplateError::TokenRepeated) <==> occurs_twice(template@, token@),
        r.is_ok() ==> forall|i: int|
            occurs_at(template@, token@, i) ==> r.unwrap()@ == spliced(template@, i, token@.len() as int, body@),
{
    let at = match find_from(template, token, 0) {
        None => {
            proof {
                assert forall|i: int| !occurs_at(template@, token@, i) by {
                    if i >= 0 {
                    }
                }
            }
            return Err(TemplateError::TokenMissing);
        },
        Some(i) => i,
    };
    if at < template.len() {
        match find_from(template, token, at + 1) {
            Some(j) => {
                proof {
                    assert(occurs_at(template@, token@, at as int) && occurs_at(template@, token@, j as int));
                }
                return Err(TemplateError::TokenRepeated);
            },
            None => {},
        }
    }
    proof {
        assert forall|j: int| occurs_at(template@, token@, j) implies j == at by {
            if j > at {
                if at >= template@.len() {
                }
            }
        }
    }
    let mut out = slice_to_vec(slice_subrange(template, 0, at));
    let mut middle = slice_to_vec(body);
    let mut tail = slice_to_vec(slice_subrange(template, at + token.len(), template.len()));
    out.append(&mut middle);
    out.append(&mut tail);
    Ok(out)
}

/// The token in the kernel's template that stands for the synthesized text.
pub const TRANSFORMS_TOKEN: &'static str = "@transforms";

/// The character of a decimal digit.
pub open spec fn digit_char(d: nat) -> char {
    if d == 0 {
        '0'
    } else if d == 1 {
        '1'
    } else if d == 2 {
        '2'
    } else if d == 3 {
        '3'
    } else if d == 4 {
        '4'
    } else if d == 5 {
        '5'
    } else if d == 6 {
        '6'
    } else if d == 7 {
        '7'
    } else if d == 8 {
        '8'
    } else {
        '9'
    }
}

/// A natural number in decimal, without leading zeros.
pub open spec fn decimal(n: nat) -> Seq<char>
    decreases n,
{
    if n < 10 {
        seq![digit_char(n)]
    } else {
        decimal(n / 10) + seq![digit_char(n % 10)]
    }
}

fn digit_str(d: usize) -> (r: &'static str)
    requires
        d < 10,
    ensures
        r@ == seq![digit_char(d as nat)],
{
    proof {
        reveal_strlit("0");
        reveal_strlit("1");
        reveal_strlit("2");
        reveal_strlit("3");
        reveal_strlit("4");
        reveal_strlit("5");
        reveal_strlit("6");
        reveal_strlit("7");
        reveal_strlit("8");
        reveal_strlit("9");
    }
    let r = if d == 0 {
        "0"
    } else if d == 1 {
        "1"
    } else if d == 2 {
        "2"
    } else if d == 3 {
        "3"
    } else if d == 4 {
        "4"
    } else if d == 5 {
        "5"
    } else if d == 6 {
        "6"
    } else if d == 7 {
        "7"
    } else if d == 8 {
        "8"
    } else {
        "9"
    };
    assert(r@ =~= seq![digit_char(d as nat)]);
    r
}

/// Appends a number in decimal.
pub fn push_decimal(out: &mut String, n: usize)
    ensures
        final(out)@ == old(out)@ + decimal(n as nat),
    decreases n,
{
    if n >= 10 {
        push_decimal(out, n / 10);
    }
    out.append(digit_str(n % 10));
    proof {
        assert(final(out)@ =~= old(out)@ + decimal(n as nat));
    }
}

/// The renderer of numbers may be called on every bit pattern.
pub open spec fn number_accepts<F: Fn(u64) -> String>(f: &F) -> bool {
    forall|bits: u64| call_requires(f, (bits,))
}

/// The renderer of numbers is a function: equal bit patterns give equal
/// texts.
pub open spec fn number_is_pure<F: Fn(u64) -> String>(f: &F) -> bool {
    forall|bits: u64, t1: String, t2: String|
        #[trigger] call_ensures(f, (bits,), t1) && #[trigger] call_ensures(f, (bits,), t2) ==> t1@ == t2@
}

/// `text` is a possible rendering of `bits`.
pub open spec fn renders<F: Fn(u64) -> String>(f: &F, bits: u64, text: Seq<char>) -> bool {
    exists|t: String| t@ == text && #[trigger] call_ensures(f, (bits,), t)
}

/// The mathematical function that a pure renderer of numbers computes.
pub open spec fn number_model<F: Fn(u64) -> String>(f: &F) -> spec_fn(u64) -> Seq<char> {
    |bits: u64| choose|text: Seq<char>| renders(f, bits, text)
}

/// What a pure renderer returned is what its model gives.
pub proof fn lemma_number_model<F: Fn(u64) -> String>(f: &F, bits: u64, t: String)
    requires
        number_is_pure(f),
        call_ensures(f, (bits,), t),
    ensures
        number_model(f)(bits) == t@,
{
    assert(renders(f, bits, t@));
    let m = number_model(f)(bits);
    assert(renders(f, bits, m));
}

/// The declaration of a scalar parameter as a local variable.
pub open spec fn real_decl(p: RealParam, num: spec_fn(u64) -> Seq<char>) -> Seq<char> {
    "\nvar "@ + p.name@ + " = "@ + num(p.value) + ";"@
}

/// The declaration of a vector parameter as a local variable.
pub open spec fn vec3_decl(p: Vec3Param, num: spec_fn(u64) -> Seq<char>) -> Seq<char> {
    "\nvar "@ + p.name@ + " = vec3("@ + num(p.x) + ", "@ + num(p.y) + ", "@ + num(p.z) + ");"@
}

/// The declarations of scalar parameters, in list order.
pub open spec fn real_decls(ps: Seq<RealParam>, num: spec_fn(u64) -> Seq<char>) -> Seq<char>
    decreases ps.len(),
{
    if ps.len() == 0 {
        Seq::empty()
    } else {
        real_decls(ps.drop_last(), num) + real_decl(ps.last(), num)
    }
}

/// The declarations of vector parameters, in list order.
pub open spec fn vec3_decls(ps: Seq<Vec3Param>, num: spec_fn(u64) -> Seq<char>) -> Seq<char>
    decreases ps.len(),
{
    if ps.len() == 0 {
        Seq::empty()
    } else {
        vec3_decls(ps.drop_last(), num) + vec3_decl(ps.last(), num)
    }
}

/// The branch of the dispatch for the iterator at position `n`: guarded by
/// the position, the declarations of its scalar and of its vector parameters,
/// then the source of its transform.
pub open spec fn iterator_branch(n: nat, it: Iterator, num: spec_fn(u64) -> Seq<char>) -> Seq<char> {
    "\n                if (iter.tf_id == "@ + decimal(n) + ") {\n                    "@ + real_decls(
        it.real_params@,
        num,
    ) + "\n                    "@ + vec3_decls(it.vec3_params@, num) + "\n                    "@
        + it.transform.source_code@ + "\n                }"@
}

/// The dispatch for the first `n` iterators of the list, in list order.
pub open spec fn dispatch_text(its: Seq<Iterator>, n: nat, num: spec_fn(u64) -> Seq<char>) -> Seq<char>
    decreases n,
{
    if n == 0 {
        Seq::empty()
    } else {
        dispatch_text(its, (n - 1) as nat, num) + iterator_branch((n - 1) as nat, its[n - 1], num)
    }
}

fn push_real_decls<F: Fn(u64) -> String>(out: &mut String, ps: &Vec<RealParam>, number: &F)
    requires
        number_accepts(number),
    ensures
        number_is_pure(number) ==> final(out)@ == old(out)@ + real_decls(ps@, number_model(number)),
{
    let ghost num = number_model(number);
    let mut i: usize = 0;
    proof {
        assert(ps@.take(0) =~= Seq::<RealParam>::empty());
        assert(out@ =~= old(out)@ + real_decls(ps@.take(0), num));
    }
    while i < ps.len()
        invariant
            i <= ps@.len(),
            number_accepts(number),
            num == number_model(number),
            number_is_pure(number) ==> out@ == old(out)@ + real_decls(ps@.take(i as int), num),
        decreases ps@.len() - i,
    {
        let text = number(ps[i].value);
        out.append("\nvar ");
        out.append(ps[i].name.as_str());
        out.append(" = ");
        out.append(text.as_str());
        out.append(";");
        proof {
            if number_is_pure(number) {
                lemma_number_model(number, ps@[i as int].value, text);
                let next = ps@.take(i + 1);
                assert(next.drop_last() == ps@.take(i as int));
                assert(next.last() == ps@[i as int]);
                assert(out@ =~= old(out)@ + real_decls(next, num));
            }
        }
        i += 1;
    }
    proof {
        assert(ps@.take(ps@.len() as int) == ps@);
    }
}

fn push_vec3_decls<F: Fn(u64) -> String>(out: &mut String, ps: &Vec<Vec3Param>, number: &F)
    requires
        number_accepts(number),
    ensures
        number_is_pure(number) ==> final(out)@ == old(out)@ + vec3_decls(ps@, number_model(number)),
{
    let ghost num = number_model(number);
    let mut i: usize = 0;
    proof {
        assert(ps@.take(0) =~= Seq::<Vec3Param>::empty());
        assert(out@ =~= old(out)@ + vec3_decls(ps@.take(0), num));
    }
    while i < ps.len()
        invariant
            i <= ps@.len(),
            number_accepts(number),
            num == number_model(number),
            number_is_pure(number) ==> out@ == old(out)@ + vec3_decls(ps@.take(i as int), num),
        decreases ps@.len() - i,
    {
        let x = number(ps[i].x);
        let y = number(ps[i].y);
        let z = number(ps[i].z);
        out.append("\nvar ");
        out.append(ps[i].name.as_str());
        out.append(" = vec3(");
        out.append(x.as_str());
        out.append(", ");
        out.append(y.as_str());
        out.append(", ");
        out.append(z.as_str());
        out.append(");");
        proof {
            if number_is_pure(number) {
                lemma_number_model(number, ps@[i as int].x, x);
                lemma_number_model(number, ps@[i as int].y, y);
                lemma_number_model(number, ps@[i as int].z, z);
                let next = ps@.take(i + 1);
                assert(next.drop_last() == ps@.take(i as int));
                assert(next.last() == ps@[i as int]);
                assert(out@ =~= old(out)@ + vec3_decls(next, num));
            }
        }
        i += 1;
    }
    proof {
        assert(ps@.take(ps@.len() as int) == ps@);
    }
}

/// Synthesizes the per-iterator dispatch of the compute kernel: one branch
/// per iterator, in list order, guarded by the iterator's position in the
/// list. `number` renders a double, given as its bit pattern, as a literal of
/// the shader language. Every parameter of an iterator's two lists gets one
/// declaration; in a well-formed iterator no name stands twice in a list, so
/// that no variable of a list is declared twice.
pub fn synthesize<F: Fn(u64) -> String>(iterators: &Vec<Iterator>, number: &F) -> (text: String)
    requires
        number_accepts(number),
    ensures
        number_is_pure(number) ==> text@ == dispatch_text(iterators@, iterators@.len(), number_model(number)),
{
    let ghost num = number_model(number);
    let mut out = String::new();
    let mut n: usize = 0;
    while n < iterators.len()
        invariant
            n <= iterators@.len(),
            number_accepts(number),
            num == number_model(number),
            number_is_pure(number) ==> out@ == dispatch_text(iterators@, n as nat, num),
        decreases iterators@.len() - n,
    {
        let it = &iterators[n];
        out.append("\n                if (iter.tf_id == ");
        push_decimal(&mut out, n);
        out.append(") {\n                    ");
        push_real_decls(&mut out, &it.real_params, number);
        out.append("\n                    ");
        push_vec3_decls(&mut out, &it.vec3_params, number);
        out.append("\n                    ");
        out.append(it.transform.source_code.as_str());
        out.append("\n                }");
        proof {
            if number_is_pure(number) {
                assert(out@ =~= dispatch_text(iterators@, n as nat, num) + iterator_branch(
                    n as nat,
                    iterators@[n as int],
                    num,
                ));
            }
        }
        n += 1;
    }
    out
}

/// The source of the compute kernel for the given iterators: the template
/// with its one `@transforms` token replaced by the synthesized dispatch, as
/// UTF-8 bytes.
pub fn build_shader<F: Fn(u64) -> String>(template: &str, iterators: &Vec<Iterator>, number: &F) -> (r: Result<
    Vec<u8>,
    TemplateError,
>)
    requires
        number_accepts(number),
    ensures
        r.is_ok() <==> occurs_once(encode_utf8(template@), encode_utf8(TRANSFORMS_TOKEN@)),
        r == Err::<Vec<u8>, TemplateError>(TemplateError::TokenMissing) <==> (forall|i: int|
            !occurs_at(encode_utf8(template@), encode_utf8(TRANSFORMS_TOKEN@), i)),
        r == Err::<Vec<u8>, TemplateError>(TemplateError::TokenRepeated) <==> occurs_twice(
            encode_utf8(template@),
            encode_utf8(TRANSFORMS_TOKEN@),
        ),
        r.is_ok() && number_is_pure(number) ==> forall|i: int|
            occurs_at(encode_utf8(template@), encode_utf8(TRANSFORMS_TOKEN@), i) ==> r.unwrap()@ == spliced(
                encode_utf8(template@),
                i,
                encode_utf8(TRANSFORMS_TOKEN@).len() as int,
                encode_utf8(dispatch_text(iterators@, iterators@.len(), number_model(number))),
            ),
{
    let body = synthesize(iterators, number);
    substitute(template.as_bytes(), TRANSFORMS_TOKEN.as_bytes(), body.as_str().as_bytes())
}

} // verus!
