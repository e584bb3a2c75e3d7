//! Finding a receiver in the local subnet: which addresses are probed, in
//! which order, and which answer is taken.
use vstd::prelude::*;
use crate::text::{decimal, push_decimal};

verus! {

/// The address used in place of the local one when it cannot be found.
pub open spec fn fallback_local() -> Seq<u8> {
    seq![192u8, 168u8, 1u8, 1u8]
}

/// `a.b.c.d` in dotted decimal.
pub open spec fn dotted(a: u8, b: u8, c: u8, d: nat) -> Seq<char> {
    decimal(a as nat) + "."@ + decimal(b as nat) + "."@ + decimal(c as nat) + "."@ + decimal(d)
}

/// How many hosts are probed when the local host's last octet is `own`:
/// all of 1..=254 but the local host itself.
pub open spec fn probe_count(own: u8) -> nat {
    if 1 <= own && own <= 254 {
        253
    } else {
        254
    }
}

/// The last octet of the `k`-th probed host (counting from 0): the hosts
/// 1..=254 in increasing order, skipping the local host.
pub open spec fn probe_host(own: u8, k: int) -> nat {
    if 1 <= own && own <= 254 && k + 1 >= own {
        (k + 2) as nat
    } else {
        (k + 1) as nat
    }
}

/// The addresses to probe, in order, for the local address `local` (the
/// fallback 192.168.1.1 where it is unknown): every host of its /24 subnet
/// from .1 to .254 except the local host.
pub fn probe_addresses(local: Option<[u8; 4]>) -> (r: Vec<String>)
    ensures
        ({
            let o = match local {
                Some(a) => a@,
                None => fallback_local(),
            };
            &&& r.len() == probe_count(o[3])
            &&& forall|k: int|
                0 <= k < r.len() ==> (#[trigger] r@[k])@ == dotted(
                    o[0],
                    o[1],
                    o[2],
                    probe_host(o[3], k),
                )
        }),
{
    let o: [u8; 4] = match local {
        Some(a) => a,
        None => [192u8, 168u8, 1u8, 1u8],
    };
    proof {
        if local is None {
            assert(o@ =~= fallback_local());
        }
    }
    let mut base = String::new();
    push_decimal(&mut base, o[0] as u64);
    base.append(".");
    push_decimal(&mut base, o[1] as u64);
    base.append(".");
    push_decimal(&mut base, o[2] as u64);
    base.append(".");
    let own = o[3];
    let mut out: Vec<String> = Vec::new();
    let mut h: u16 = 1;
    while h <= 254
        invariant
            1 <= h <= 255,
            base@ == decimal(o@[0] as nat) + "."@ + decimal(o@[1] as nat) + "."@ + decimal(
                o@[2] as nat,
            ) + "."@,
            own == o@[3],
            out.len() == if 1 <= own && own < h {
                h - 2
            } else {
                h - 1
            },
            forall|k: int|
                0 <= k < out.len() ==> (#[trigger] out@[k])@ == dotted(
                    o@[0],
                    o@[1],
                    o@[2],
                    probe_host(own, k),
                ),
        decreases 255 - h,
    {
        if h != own as u16 {
            let mut addr = base.clone();
            push_decimal(&mut addr, h as u64);
            assert(probe_host(own, out.len() as int) == h);
            out.push(addr);
        }
        h += 1;
    }
    out
}

/// The first probe that answered, in probing order.
pub open spec fn first_answer(answers: Seq<Option<Seq<char>>>) -> Option<Seq<char>>
    decreases answers.len(),
{
    if answers.len() == 0 {
        None
    } else {
        match answers[0] {
            Some(a) => Some(a),
            None => first_answer(answers.drop_first()),
        }
    }
}

/// The view of a list of probe answers.
pub open spec fn answers_view(v: Seq<Option<String>>) -> Seq<Option<Seq<char>>> {
    v.map_values(
        |a: Option<String>|
            match a {
                Some(s) => Some(s@),
                None => None,
            },
    )
}

/// The receiver found by a scan: the first address, in probing order, that
/// accepted a connection.
pub fn found_receiver(answers: &Vec<Option<String>>) -> (r: Option<String>)
    ensures
        (match r {
            Some(s) => Some(s@),
            None => None,
        }) == first_answer(answers_view(answers@)),
{
    let mut i: usize = 0;
    assert(answers_view(answers@).skip(0) =~= answers_view(answers@));
    while i < answers.len()
        invariant
            i <= answers.len(),
            first_answer(answers_view(answers@)) == first_answer(
                answers_view(answers@).skip(i as int),
            ),
        decreases answers.len() - i,
    {
        let ghost rest = answers_view(answers@).skip(i as int);
        assert(rest.drop_first() =~= answers_view(answers@).skip(i + 1));
        match &answers[i] {
            Some(a) => {
                return Some(a.clone());
            },
            None => {},
        }
        i += 1;
    }
    None
}

} // verus!
