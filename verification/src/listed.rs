//! Listed-type collection: discovers every name referenced by a named-list
//! shape anywhere in the lowered catalog's signatures, deduplicated and in
//! ascending lexicographic order.
use crate::decl::catalog_spec;
use crate::func::AbiFunction;
use crate::func::AbiFunctionV;
use crate::surface::Interface;
use crate::types::AbiError;
use crate::types::AbiType;
use crate::types::AbiTypeV;
use crate::types::abi_models_of;
use crate::types::lemma_abi_models_of;
use vstd::prelude::*;
use vstd::string::StrSliceExecFns;

verus! {

/// Strict lexicographic order on character sequences, by code point.
pub open spec fn lex_lt(a: Seq<char>, b: Seq<char>) -> bool
    decreases a.len(),
{
    if b.len() == 0 {
        false
    } else if a.len() == 0 {
        true
    } else if a[0] != b[0] {
        (a[0] as u32) < (b[0] as u32)
    } else {
        lex_lt(a.subrange(1, a.len() as int), b.subrange(1, b.len() as int))
    }
}

/// The lexicographic order is connected: two sequences neither of which
/// precedes the other are equal.
pub proof fn lemma_lex_lt_connected(a: Seq<char>, b: Seq<char>)
    ensures
        !lex_lt(a, b) && !lex_lt(b, a) ==> a == b,
    decreases a.len(),
{
    if a.len() == 0 && b.len() == 0 {
        assert(a =~= b);
    } else if a.len() > 0 && b.len() > 0 && a[0] != b[0] {
        if !lex_lt(a, b) && !lex_lt(b, a) {
            assert((a[0] as u32) == (b[0] as u32));
            vstd::utf8::char_u32_cast(a[0], a[0] as u32);
            vstd::utf8::char_u32_cast(b[0], b[0] as u32);
            assert(a[0] == b[0]);
        }
    } else if a.len() > 0 && b.len() > 0 && a[0] == b[0] {
        lemma_lex_lt_connected(
            a.subrange(1, a.len() as int),
            b.subrange(1, b.len() as int),
        );
        if !lex_lt(a, b) && !lex_lt(b, a) {
            assert(a.subrange(1, a.len() as int) == b.subrange(1, b.len() as int));
            assert(forall|k: int|
                1 <= k < a.len() ==> a[k] == a.subrange(1, a.len() as int)[k - 1]);
            assert(forall|k: int|
                1 <= k < b.len() ==> b[k] == b.subrange(1, b.len() as int)[k - 1]);
            assert(a =~= b);
        }
    }
}

/// The lexicographic order is transitive.
pub proof fn lemma_lex_lt_trans(a: Seq<char>, b: Seq<char>, c: Seq<char>)
    requires
        lex_lt(a, b),
        lex_lt(b, c),
    ensures
        lex_lt(a, c),
    decreases a.len(),
{
    if a.len() > 0 && b.len() > 0 && c.len() > 0 && a[0] == b[0] && b[0] == c[0] {
        lemma_lex_lt_trans(
            a.subrange(1, a.len() as int),
            b.subrange(1, b.len() as int),
            c.subrange(1, c.len() as int),
        );
    }
}

/// Strictly ascending lexicographic order over a sequence of names.
pub open spec fn sorted_names(s: Seq<String>) -> bool {
    forall|i: int, j: int| 0 <= i < j < s.len() ==> lex_lt(s[i]@, s[j]@)
}

/// Whether a name occurs among the views of a sequence of strings.
pub open spec fn has_name(s: Seq<String>, n: Seq<char>) -> bool {
    exists|i: int| 0 <= i < s.len() && s[i]@ == n
}

/// The set of list-element names referenced inside one boundary type,
/// descending through optional, fallible, iterator, future and stream
/// wrappers (owned and borrowed) and through tuple elements.
pub open spec fn listed_in(t: AbiTypeV) -> Set<Seq<char>>
    decreases t, 0int,
{
    match t {
        AbiTypeV::List(n) => Set::empty().insert(n),
        AbiTypeV::Optional(b) => listed_in(*b),
        AbiTypeV::Fallible(b) => listed_in(*b),
        AbiTypeV::RefIter(b) => listed_in(*b),
        AbiTypeV::Iter(b) => listed_in(*b),
        AbiTypeV::RefFuture(b) => listed_in(*b),
        AbiTypeV::Future(b) => listed_in(*b),
        AbiTypeV::RefStream(b) => listed_in(*b),
        AbiTypeV::Stream(b) => listed_in(*b),
        AbiTypeV::Tuple(ts) => listed_in_seq(ts, 0),
        _ => Set::empty(),
    }
}

/// The list-element names referenced by a suffix of a tuple's elements.
pub open spec fn listed_in_seq(ts: Seq<AbiTypeV>, i: int) -> Set<Seq<char>>
    decreases ts, ts.len() - i,
{
    if i < 0 || i >= ts.len() {
        Set::empty()
    } else {
        listed_in(ts[i]).union(listed_in_seq(ts, i + 1))
    }
}

/// The list-element names referenced by a suffix of a parameter list.
pub open spec fn listed_in_args_from(args: Seq<(Seq<char>, AbiTypeV)>, i: int) -> Set<Seq<char>>
    decreases args.len() - i,
{
    if i < 0 || i >= args.len() {
        Set::empty()
    } else {
        listed_in(args[i].1).union(listed_in_args_from(args, i + 1))
    }
}

/// The list-element names referenced anywhere in one boundary function's
/// signature: its return type and its parameters.
pub open spec fn listed_of_fn(f: AbiFunctionV) -> Set<Seq<char>> {
    (match f.ret {
        Some(t) => listed_in(t),
        None => Set::empty(),
    }).union(listed_in_args_from(f.args, 0))
}

/// The list-element names referenced by a suffix of the catalog.
pub open spec fn listed_of_fns_from(fs: Seq<AbiFunctionV>, i: int) -> Set<Seq<char>>
    decreases fs.len() - i,
{
    if i < 0 || i >= fs.len() {
        Set::empty()
    } else {
        listed_of_fn(fs[i]).union(listed_of_fns_from(fs, i + 1))
    }
}

/// Whether one string precedes another in the lexicographic order.
fn str_lt(a: &str, b: &str) -> (r: bool)
    ensures
        r == lex_lt(a@, b@),
{
    let alen = a.unicode_len();
    let blen = b.unicode_len();
    let mut i: usize = 0;
    proof {
        assert(a@.subrange(0, a@.len() as int) =~= a@);
        assert(b@.subrange(0, b@.len() as int) =~= b@);
    }
    loop
        invariant
            i <= alen,
            i <= blen,
            alen == a@.len(),
            blen == b@.len(),
            lex_lt(a@, b@) == lex_lt(
                a@.subrange(i as int, alen as int),
                b@.subrange(i as int, blen as int),
            ),
        decreases alen - i,
    {
        if i == alen {
            return i < blen;
        }
        if i == blen {
            return false;
        }
        let ca = a.get_char(i);
        let cb = b.get_char(i);
        if ca != cb {
            return (ca as u32) < (cb as u32);
        }
        proof {
            assert(a@.subrange(i as int, alen as int).subrange(
                1,
                (alen - i) as int,
            ) =~= a@.subrange(i + 1, alen as int));
            assert(b@.subrange(i as int, blen as int).subrange(
                1,
                (blen - i) as int,
            ) =~= b@.subrange(i + 1, blen as int));
        }
        i = i + 1;
    }
}

/// Inserts a name into a strictly sorted vector, keeping it sorted and
/// deduplicated.
#[verifier::rlimit(60)]
fn insert_sorted(out: &mut Vec<String>, name: String)
    requires
        sorted_names(old(out)@),
    ensures
        sorted_names(final(out)@),
        forall|n: Seq<char>|
            has_name(final(out)@, n) <==> has_name(old(out)@, n) || n == name@,
{
    let ghost s0 = out@;
    let ghost gname = name@;
    let mut i: usize = 0;
    while i < out.len() && str_lt(out[i].as_str(), name.as_str())
        invariant
            out@ == s0,
            i <= s0.len(),
            gname == name@,
            sorted_names(s0),
            forall|k: int| 0 <= k < i ==> lex_lt(s0[k]@, gname),
        decreases s0.len() - i,
    {
        i = i + 1;
    }
    if i < out.len() {
        if out[i].eq(&name) {
            proof {
                assert(has_name(s0, gname));
            }
            return;
        }
    }
    proof {
        if i < s0.len() {
            lemma_lex_lt_connected(s0[i as int]@, gname);
            assert(lex_lt(gname, s0[i as int]@));
            assert forall|j: int| i < j < s0.len() implies lex_lt(gname, s0[j]@) by {
                assert(lex_lt(s0[i as int]@, s0[j]@));
                lemma_lex_lt_trans(gname, s0[i as int]@, s0[j]@);
            }
        }
    }
    out.insert(i, name);
    proof {
        let s1 = out@;
        assert(s1 == s0.insert(i as int, s1[i as int]));
        s0.insert_ensures(i as int, s1[i as int]);
        assert(s1[i as int]@ == gname);
        assert forall|p: int, q: int| 0 <= p < q < s1.len() implies lex_lt(s1[p]@, s1[q]@) by {
            if q < i {
                assert(lex_lt(s0[p]@, s0[q]@));
            } else if q == i {
                assert(lex_lt(s0[p]@, gname));
            } else if p < i {
                if p == q - 1 {
                    assert(lex_lt(s0[p]@, gname));
                    assert(lex_lt(gname, s0[q - 1]@));
                    lemma_lex_lt_trans(s0[p]@, gname, s0[q - 1]@);
                } else {
                    assert(lex_lt(s0[p]@, s0[q - 1]@));
                }
            } else if p == i {
                assert(lex_lt(gname, s0[q - 1]@));
            } else {
                assert(lex_lt(s0[p - 1]@, s0[q - 1]@));
            }
        }
        assert forall|n: Seq<char>| has_name(s1, n) implies (has_name(s0, n) || n == gname) by {
            let k = choose|k: int| 0 <= k < s1.len() && s1[k]@ == n;
            if k < i {
                assert(s0[k]@ == n);
            } else if k > i {
                assert(s0[k - 1]@ == n);
            }
        }
        assert forall|n: Seq<char>| (has_name(s0, n) || n == gname) implies has_name(s1, n) by {
            if n == gname {
                assert(s1[i as int]@ == n);
            } else {
                let k = choose|k: int| 0 <= k < s0.len() && s0[k]@ == n;
                if k < i {
                    assert(s1[k]@ == n);
                } else {
                    assert(s1[k + 1]@ == n);
                }
            }
        }
    }
}

/// Collects into a sorted, deduplicated vector every list-element name
/// referenced inside one boundary type.
fn collect_listed(t: &AbiType, out: &mut Vec<String>)
    requires
        sorted_names(old(out)@),
    ensures
        sorted_names(final(out)@),
        forall|n: Seq<char>|
            has_name(final(out)@, n) <==> has_name(old(out)@, n) || listed_in(t.model()).contains(
                n,
            ),
    decreases t, 1int, 0int,
{
    match t {
        AbiType::List(name) => {
            insert_sorted(out, name.clone());
        },
        AbiType::Optional(b) => {
            collect_listed(&**b, out);
        },
        AbiType::Fallible(b) => {
            collect_listed(&**b, out);
        },
        AbiType::RefIter(b) => {
            collect_listed(&**b, out);
        },
        AbiType::Iter(b) => {
            collect_listed(&**b, out);
        },
        AbiType::RefFuture(b) => {
            collect_listed(&**b, out);
        },
        AbiType::Future(b) => {
            collect_listed(&**b, out);
        },
        AbiType::RefStream(b) => {
            collect_listed(&**b, out);
        },
        AbiType::Stream(b) => {
            collect_listed(&**b, out);
        },
        AbiType::Tuple(ts) => {
            proof {
                lemma_abi_models_of(ts@);
            }
            collect_listed_elems(ts, 0, out);
        },
        _ => {
        },
    }
}

/// Collects the list-element names of a tuple's elements from a given
/// position on.
fn collect_listed_elems(ts: &Vec<AbiType>, from: usize, out: &mut Vec<String>)
    requires
        from <= ts@.len(),
        sorted_names(old(out)@),
    ensures
        sorted_names(final(out)@),
        forall|n: Seq<char>|
            has_name(final(out)@, n) <==> has_name(old(out)@, n) || listed_in_seq(
                abi_models_of(ts@),
                from as int,
            ).contains(n),
    decreases ts@, 0int, ts@.len() - from,
{
    proof {
        lemma_abi_models_of(ts@);
    }
    if from < ts.len() {
        collect_listed(&ts[from], out);
        collect_listed_elems(ts, from + 1, out);
    }
}

/// Collects the list-element names referenced anywhere in one boundary
/// function's signature: its return type first, then its parameters.
fn collect_listed_fn(f: &AbiFunction, out: &mut Vec<String>)
    requires
        sorted_names(old(out)@),
    ensures
        sorted_names(final(out)@),
        forall|n: Seq<char>|
            has_name(final(out)@, n) <==> has_name(old(out)@, n) || listed_of_fn(
                f.model(),
            ).contains(n),
{
    let ghost fm = f.model();
    match &f.ret {
        Some(t) => {
            collect_listed(t, out);
        },
        None => {
        },
    }
    let ghost base = out@;
    let ghost av = fm.args;
    let mut k: usize = 0;
    while k < f.args.len()
        invariant
            k <= f.args@.len(),
            av == fm.args,
            fm == f.model(),
            av.len() == f.args@.len(),
            forall|j: int| 0 <= j < f.args@.len() ==> av[j].1 == f.args@[j].1.model(),
            sorted_names(out@),
            forall|n: Seq<char>|
                (has_name(out@, n) || listed_in_args_from(av, k as int).contains(n)) <==> (
                has_name(base, n) || listed_in_args_from(av, 0).contains(n)),
        decreases f.args@.len() - k,
    {
        let ghost out_pre = out@;
        collect_listed(&f.args[k].1, out);
        proof {
            assert(f.args@[k as int].1.model() == av[k as int].1);
            assert(listed_in_args_from(av, k as int) == listed_in(av[k as int].1).union(
                listed_in_args_from(av, k as int + 1),
            ));
            assert forall|n: Seq<char>|
                (has_name(out@, n) || listed_in_args_from(av, k as int + 1).contains(n)) <==> (
                has_name(base, n) || listed_in_args_from(av, 0).contains(n)) by {
                assert((has_name(out_pre, n) || listed_in_args_from(av, k as int).contains(n))
                    <==> (has_name(base, n) || listed_in_args_from(av, 0).contains(n)));
                assert(has_name(out@, n) <==> has_name(out_pre, n) || listed_in(
                    f.args@[k as int].1.model(),
                ).contains(n));
            }
        }
        k = k + 1;
    }
}

impl Interface {
    /// The names of every composite type referenced inside a list shape
    /// anywhere in the lowered catalog: deduplicated and in ascending
    /// lexicographic order.
    #[verifier::rlimit(60)]
    pub fn listed_types(&self) -> (r: Result<Vec<String>, AbiError>)
        ensures
            (match catalog_spec(self.model()) {
                Ok(fs) => r matches Ok(v) && sorted_names(v@) && (forall|
                    n: Seq<char>,
                |
                    has_name(v@, n) <==> listed_of_fns_from(fs, 0).contains(n)),
                Err(e) => r matches Err(err) && err.model() == e,
            }),
    {
        let funcs = match self.catalog_funcs() {
            Err(e) => {
                return Err(e);
            },
            Ok(v) => v,
        };
        let ghost fsv = catalog_spec(self.model())->Ok_0;
        let mut out: Vec<String> = Vec::new();
        let mut i: usize = 0;
        while i < funcs.len()
            invariant
                i <= funcs@.len(),
                fsv.len() == funcs@.len(),
                forall|k: int| 0 <= k < funcs@.len() ==> fsv[k] == funcs@[k].model(),
                sorted_names(out@),
                forall|n: Seq<char>|
                    (has_name(out@, n) || listed_of_fns_from(fsv, i as int).contains(n)) <==> (
                    listed_of_fns_from(fsv, 0).contains(n)),
            decreases funcs@.len() - i,
        {
            proof {
                assert(fsv[i as int] == funcs@[i as int].model());
            }
            let ghost out_pre = out@;
            let ghost ip = i as int;
            collect_listed_fn(&funcs[i], &mut out);
            i = i + 1;
            proof {
                assert(listed_of_fns_from(fsv, ip) == listed_of_fn(fsv[ip]).union(
                    listed_of_fns_from(fsv, ip + 1),
                ));
                assert(i as int == ip + 1);
                assert forall|n: Seq<char>|
                    (has_name(out@, n) || listed_of_fns_from(fsv, i as int).contains(n)) <==> (
                    listed_of_fns_from(fsv, 0).contains(n)) by {
                    assert((has_name(out_pre, n) || listed_of_fns_from(fsv, ip).contains(n)) <==> (
                    listed_of_fns_from(fsv, 0).contains(n)));
                    assert(has_name(out@, n) <==> has_name(out_pre, n) || listed_of_fn(
                        funcs@[ip].model(),
                    ).contains(n));
                    assert(listed_of_fns_from(fsv, ip).contains(n) <==> listed_of_fn(
                        fsv[ip],
                    ).contains(n) || listed_of_fns_from(fsv, ip + 1).contains(n));
                }
            }
        }
        Ok(out)
    }
}

} // verus!
