//! Requests and their wire form.
use vstd::prelude::*;
use crate::error::RpcError;
use crate::json::{encode_str, encode_value, json_string_text};

verus! {

/// One remote call: a method name, its positional parameters, and the
/// identifier that pairs it with its reply.
#[derive(Debug, PartialEq)]
pub struct Request {
    pub method: String,
    pub params: Vec<serde_json::Value>,
    pub id: u64,
}

/// The decimal digits of `n`, most significant first, as ASCII bytes.
pub open spec fn decimal(n: nat) -> Seq<u8>
    decreases n,
{
    if n < 10 {
        seq![(n + 48) as u8]
    } else {
        decimal(n / 10).push(((n % 10) + 48) as u8)
    }
}

/// The texts `ts` one after the other, with a comma between two neighbours.
pub open spec fn comma_joined(ts: Seq<Seq<u8>>) -> Seq<u8>
    decreases ts.len(),
{
    if ts.len() == 0 {
        Seq::empty()
    } else if ts.len() == 1 {
        ts[0]
    } else {
        comma_joined(ts.drop_last()).push(44u8) + ts.last()
    }
}

/// `{"method":`
pub open spec fn method_key() -> Seq<u8> {
    seq![123u8, 34u8, 109u8, 101u8, 116u8, 104u8, 111u8, 100u8, 34u8, 58u8]
}

/// `,"params":[`
pub open spec fn params_key() -> Seq<u8> {
    seq![44u8, 34u8, 112u8, 97u8, 114u8, 97u8, 109u8, 115u8, 34u8, 58u8, 91u8]
}

/// `],"id":`
pub open spec fn id_key() -> Seq<u8> {
    seq![93u8, 44u8, 34u8, 105u8, 100u8, 34u8, 58u8]
}

/// The JSON object `{"method":M,"params":[P1,...,Pn],"id":N}`, from the text
/// of the method name, the texts of the parameters and the identifier.
pub open spec fn request_frame(method: Seq<u8>, params: Seq<Seq<u8>>, id: u64) -> Seq<u8> {
    method_key() + method + params_key() + comma_joined(params) + id_key() + decimal(id as nat)
        + seq![125u8]
}

/// The views of a list of byte strings.
pub open spec fn texts_view(ts: Seq<Vec<u8>>) -> Seq<Seq<u8>> {
    ts.map_values(|t: Vec<u8>| t@)
}

fn push_all(out: &mut Vec<u8>, t: &Vec<u8>)
    ensures
        final(out)@ == old(out)@ + t@,
{
    let mut i: usize = 0;
    while i < t.len()
        invariant
            i <= t@.len(),
            out@ == old(out)@ + t@.take(i as int),
        decreases t@.len() - i,
    {
        out.push(t[i]);
        i = i + 1;
        assert(t@.take(i as int) =~= t@.take(i - 1).push(t@[i - 1]));
    }
    assert(t@.take(i as int) =~= t@);
}

fn push_decimal(out: &mut Vec<u8>, n: u64)
    ensures
        final(out)@ == old(out)@ + decimal(n as nat),
    decreases n,
{
    if n >= 10 {
        push_decimal(out, n / 10);
    }
    out.push((n % 10) as u8 + 48);
    assert(final(out)@ =~= old(out)@ + decimal(n as nat));
}

/// Writes a request as its JSON object, from the JSON text of its method name,
/// the JSON texts of its parameters, and its identifier.
pub fn frame_request(method_text: &Vec<u8>, param_texts: &Vec<Vec<u8>>, id: u64) -> (r: Vec<u8>)
    ensures
        r@ == request_frame(method_text@, texts_view(param_texts@), id),
{
    let mut out: Vec<u8> = vec![123u8, 34u8, 109u8, 101u8, 116u8, 104u8, 111u8, 100u8, 34u8, 58u8];
    push_all(&mut out, method_text);
    let key: Vec<u8> = vec![44u8, 34u8, 112u8, 97u8, 114u8, 97u8, 109u8, 115u8, 34u8, 58u8, 91u8];
    push_all(&mut out, &key);
    let ghost start = out@;
    let mut i: usize = 0;
    while i < param_texts.len()
        invariant
            i <= param_texts@.len(),
            out@ == start + comma_joined(texts_view(param_texts@.take(i as int))),
        decreases param_texts@.len() - i,
    {
        let ghost before = texts_view(param_texts@.take(i as int));
        if i > 0 {
            out.push(44u8);
        }
        push_all(&mut out, &param_texts[i]);
        i = i + 1;
        proof {
            let now = texts_view(param_texts@.take(i as int));
            assert(now.drop_last() =~= before);
            assert(now.last() == param_texts@[i - 1]@);
            if i == 1 {
                assert(before =~= Seq::<Seq<u8>>::empty());
                assert(comma_joined(now) == now[0]);
            }
        }
    }
    assert(param_texts@.take(i as int) =~= param_texts@);
    let key: Vec<u8> = vec![93u8, 44u8, 34u8, 105u8, 100u8, 34u8, 58u8];
    push_all(&mut out, &key);
    push_decimal(&mut out, id);
    out.push(125u8);
    assert(out@ =~= request_frame(method_text@, texts_view(param_texts@), id));
    out
}

impl Request {
    /// The body of the HTTP request that carries this call. The codec writes
    /// any method name and any parameters, so this always succeeds.
    pub fn encode(&self) -> (r: Result<Vec<u8>, RpcError>)
        ensures
            r is Ok,
            r matches Ok(b) ==> exists|ps: Seq<Seq<u8>>|
                ps.len() == self.params@.len()
                    && b@ == request_frame(json_string_text(self.method@), ps, self.id),
            r matches Err(e) ==> e is Encode,
    {
        let method_text = match encode_str(&self.method) {
            Ok(t) => t,
            Err(e) => {
                return Err(RpcError::Encode(e));
            },
        };
        let mut texts: Vec<Vec<u8>> = Vec::new();
        let mut i: usize = 0;
        while i < self.params.len()
            invariant
                i <= self.params@.len(),
                texts@.len() == i,
            decreases self.params@.len() - i,
        {
            match encode_value(&self.params[i]) {
                Ok(t) => texts.push(t),
                Err(e) => {
                    return Err(RpcError::Encode(e));
                },
            }
            i = i + 1;
        }
        let body = frame_request(&method_text, &texts, self.id);
        assert(texts_view(texts@).len() == self.params@.len());
        Ok(body)
    }
}

} // verus!
