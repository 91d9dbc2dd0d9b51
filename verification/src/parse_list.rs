//! Parsers for property lists: `;`-separated entries, an optional trailing
//! `;`, escape blocks allowed per entry.

use vstd::prelude::*;
use vstd::string::StrSliceExecFns;
use crate::diag::{err_matches, ParseError, SpecErr};
use crate::parse_color::SpecDC;
use crate::parse_style::{style_res_matches, sv_matches, StyleV};
use crate::progress::{lemma_dynamic_style_bounds};
use crate::property::Style;
use crate::styles::{DynamicStyle, DynamicStyles, Styles};
use crate::text::{skip_ws, spec_skip_ws, EscapeBlock};

verus! {

/// What a dynamic-style parse yields at the spec level.
pub ghost enum DStyleV {
    Lit(StyleV),
    Dyn(Seq<char>),
}

/// Whether a dynamic style is the one the spec names.
pub open spec fn ds_val_matches(d: DynamicStyle, v: DStyleV) -> bool {
    match d {
        DynamicStyle::Literal(st) => v is Lit && sv_matches(st, v->Lit_0),
        DynamicStyle::Dynamic(b) => v is Dyn && v->Dyn_0 == b.tokens@,
    }
}

impl DynamicStyle {
    /// An escape block standing for a whole entry, else a literal property.
    pub open spec fn spec_parse(s: Seq<char>, p: int) -> Result<(DStyleV, int), SpecErr> {
        match crate::parse_color::spec_escape(s, p) {
            Option::Some(inner) => match inner {
                Ok((tokens, e)) => Ok((DStyleV::Dyn(tokens), e)),
                Err(er) => Err(er),
            },
            Option::None => match Style::spec_parse(s, p) {
                Ok((sv, e)) => Ok((DStyleV::Lit(sv), e)),
                Err(er) => Err(er),
            },
        }
    }

    /// Consumes one entry, as [`DynamicStyle::spec_parse`].
    pub fn parse(s: &str, pos: usize) -> (r: Result<(DynamicStyle, usize), ParseError>)
        requires
            pos <= s@.len(),
        ensures
            match r {
                Ok((d, e)) => DynamicStyle::spec_parse(s@, pos as int) is Ok && ds_val_matches(
                    d,
                    DynamicStyle::spec_parse(s@, pos as int)->Ok_0.0,
                ) && e as int == DynamicStyle::spec_parse(s@, pos as int)->Ok_0.1 && e <= s@.len(),
                Err(er) => DynamicStyle::spec_parse(s@, pos as int) is Err && err_matches(
                    er,
                    DynamicStyle::spec_parse(s@, pos as int)->Err_0,
                ),
            },
    {
        match crate::parse_color::parse_escape(s, pos) {
            Option::Some(inner) => match inner {
                Ok((b, e)) => Ok((DynamicStyle::Dynamic(b), e)),
                Err(er) => Err(er),
            },
            Option::None => {
                match Style::parse(s, pos) {
                    Ok((st, e)) => Ok((DynamicStyle::Literal(st), e)),
                    Err(er) => Err(er),
                }
            },
        }
    }
}

/// The `;`-separated entry list from `p` to the input's end: entries
/// separated by `;`, the trailing `;` optional.  `fuel` bounds the
/// recursion; any fuel past the remaining length gives the same answer.
pub open spec fn spec_styles_items(s: Seq<char>, p: int, fuel: nat) -> Result<
    (Seq<DStyleV>, int),
    SpecErr,
>
    decreases fuel,
{
    let q = spec_skip_ws(s, p);
    if q >= s.len() {
        Ok((Seq::empty(), q))
    } else if fuel == 0 {
        Err(SpecErr { pos: p, msg: Seq::empty() })
    } else {
        match DynamicStyle::spec_parse(s, p) {
            Err(e) => Err(e),
            Ok((d, e)) => {
                let q2 = spec_skip_ws(s, e);
                if q2 >= s.len() {
                    Ok((seq![d], q2))
                } else if s[q2] == ';' {
                    match spec_styles_items(s, q2 + 1, (fuel - 1) as nat) {
                        Err(er) => Err(er),
                        Ok((rest, e2)) => Ok((seq![d] + rest, e2)),
                    }
                } else {
                    Err(SpecErr { pos: q2, msg: "expected `;`"@ })
                }
            },
        }
    }
}

/// Enough fuel is as good as any more: past the remaining length the result
/// does not depend on it.
pub proof fn lemma_styles_items_fuel(s: Seq<char>, p: int, f1: nat, f2: nat)
    requires
        0 <= p <= s.len(),
        f1 >= s.len() - p + 1,
        f2 >= s.len() - p + 1,
    ensures
        spec_styles_items(s, p, f1) == spec_styles_items(s, p, f2),
    decreases s.len() - p,
{
    crate::text::lemma_skip_ws(s, p);
    let q = spec_skip_ws(s, p);
    if q < s.len() {
        lemma_dynamic_style_bounds(s, p);
        let r = DynamicStyle::spec_parse(s, p);
        if r is Ok {
            let e = r->Ok_0.1;
            crate::text::lemma_skip_ws(s, e);
            let q2 = spec_skip_ws(s, e);
            if q2 < s.len() && s[q2] == ';' {
                lemma_styles_items_fuel(s, q2 + 1, (f1 - 1) as nat, (f2 - 1) as nat);
            }
        }
    }
}

/// The whole input as a dynamic property list.
pub open spec fn spec_dynamic_styles(s: Seq<char>) -> Result<(Seq<DStyleV>, int), SpecErr> {
    spec_styles_items(s, 0, (s.len() + 1) as nat)
}

/// Prefixing already-parsed entries onto the remainder's result.
pub open spec fn prepend_items(pre: Seq<DStyleV>, r: Result<(Seq<DStyleV>, int), SpecErr>)
    -> Result<(Seq<DStyleV>, int), SpecErr> {
    match r {
        Ok((rest, e)) => Ok((pre + rest, e)),
        Err(er) => Err(er),
    }
}

/// Whether a parsed entry vector is the one the spec names, entry by entry.
pub open spec fn ds_list_matches(v: Seq<DynamicStyle>, sv: Seq<DStyleV>) -> bool {
    v.len() == sv.len() && forall|i: int| 0 <= i < v.len() ==> ds_val_matches(#[trigger] v[i], sv[i])
}

impl DynamicStyles {
    /// Parses a whole string as a dynamic property list, as
    /// [`spec_dynamic_styles`].
    #[verifier::rlimit(100)]
    pub fn parse_str(s: &str) -> (r: Result<DynamicStyles, ParseError>)
        ensures
            match r {
                Ok(ds) => spec_dynamic_styles(s@) is Ok && ds_list_matches(
                    ds.0@,
                    spec_dynamic_styles(s@)->Ok_0.0,
                ),
                Err(er) => spec_dynamic_styles(s@) is Err && err_matches(
                    er,
                    spec_dynamic_styles(s@)->Err_0,
                ),
            },
    {
        let len = s.unicode_len();
        let mut out: Vec<DynamicStyle> = Vec::new();
        let ghost mut pre: Seq<DStyleV> = Seq::empty();
        let mut p: usize = 0;
        proof {
            lemma_styles_items_fuel(s@, 0, (s@.len() + 1) as nat, (s@.len() - 0 + 1) as nat);
            let r0 = spec_styles_items(s@, 0, (s@.len() - 0 + 1) as nat);
            if r0 is Ok {
                assert(pre + r0->Ok_0.0 =~= r0->Ok_0.0);
            }
        }
        loop
            invariant
                p <= s@.len(),
                len == s@.len(),
                ds_list_matches(out@, pre),
                spec_dynamic_styles(s@) == prepend_items(
                    pre,
                    spec_styles_items(s@, p as int, (s@.len() - p + 1) as nat),
                ),
            decreases s@.len() - p,
        {
            let ghost fuel = (s@.len() - p + 1) as nat;
            let q = skip_ws(s, p);
            if q >= len {
                proof {
                    assert(pre + Seq::<DStyleV>::empty() =~= pre);
                }
                return Ok(DynamicStyles(out));
            }
            let (d, e) = match DynamicStyle::parse(s, p) {
                Ok(v) => v,
                Err(er) => {
                    return Err(er);
                },
            };
            proof {
                lemma_dynamic_style_bounds(s@, p as int);
            }
            let ghost pre_old = pre;
            let ghost dv = DynamicStyle::spec_parse(s@, p as int)->Ok_0.0;
            out.push(d);
            proof {
                pre = pre.push(dv);
                assert(pre_old + seq![dv] =~= pre);
            }
            let q2 = skip_ws(s, e);
            if q2 >= len {
                proof {
                    assert(spec_styles_items(s@, p as int, fuel) == Ok::<
                        (Seq<DStyleV>, int),
                        SpecErr,
                    >((seq![dv], q2 as int)));
                    assert(pre_old + seq![dv] =~= pre);
                }
                return Ok(DynamicStyles(out));
            }
            if s.get_char(q2) == ';' {
                proof {
                    lemma_styles_items_fuel(
                        s@,
                        q2 as int + 1,
                        (fuel - 1) as nat,
                        (s@.len() - (q2 + 1) + 1) as nat,
                    );
                    let restr = spec_styles_items(
                        s@,
                        q2 as int + 1,
                        (s@.len() - (q2 + 1) + 1) as nat,
                    );
                    assert(spec_styles_items(s@, p as int, fuel) == (match restr {
                        Err(er) => Err::<(Seq<DStyleV>, int), SpecErr>(er),
                        Ok((rest, e2)) => Ok((seq![dv] + rest, e2)),
                    }));
                    if restr is Ok {
                        assert(pre_old + (seq![dv] + restr->Ok_0.0) =~= (pre_old + seq![dv])
                            + restr->Ok_0.0);
                    }
                }
                p = q2 + 1;
            } else {
                return Err(crate::diag::error_at(q2, "expected `;`"));
            }
        }
    }
}

/// The whole input as a literal-only property list: an escape-block entry
/// is refused.
pub open spec fn spec_styles_str(s: Seq<char>) -> Result<Seq<StyleV>, SpecErr> {
    match spec_dynamic_styles(s) {
        Err(e) => Err(e),
        Ok((items, _e)) => {
            if exists|i: int| 0 <= i < items.len() && items[i] is Dyn {
                Err(SpecErr { pos: 0, msg: "found dynamic style in Styles literal"@ })
            } else {
                Ok(items.map_values(|d: DStyleV| d->Lit_0))
            }
        },
    }
}

impl Styles {
    /// Parses a whole string as a literal property list, as
    /// [`spec_styles_str`]: a `{ ... }` escape entry is an error here.
    #[verifier::rlimit(100)]
    pub fn parse_str(s: &str) -> (r: Result<Styles, ParseError>)
        ensures
            match r {
                Ok(st) => spec_styles_str(s@) is Ok && st.0@.len() == spec_styles_str(
                    s@,
                )->Ok_0.len() && (forall|i: int|
                    0 <= i < st.0@.len() ==> sv_matches(
                        #[trigger] st.0@[i],
                        spec_styles_str(s@)->Ok_0[i],
                    )),
                Err(er) => spec_styles_str(s@) is Err && err_matches(er, spec_styles_str(s@)->Err_0),
            },
    {
        let dy = match DynamicStyles::parse_str(s) {
            Ok(v) => v,
            Err(er) => {
                return Err(er);
            },
        };
        let ghost items = spec_dynamic_styles(s@)->Ok_0.0;
        let mut rest = dy.0;
        let n0 = rest.len();
        let ghost rest0 = rest@;
        proof {
            assert(rest0.len() == n0);
        }
        let mut out: Vec<Style> = Vec::new();
        let mut i: usize = 0;
        while rest.len() > 0
            invariant
                spec_dynamic_styles(s@) is Ok,
                items == spec_dynamic_styles(s@)->Ok_0.0,
                rest@ =~= rest0.skip(i as int),
                i + rest@.len() == rest0.len(),
                rest0.len() <= usize::MAX,
                rest0.len() == items.len(),
                forall|j: int|
                    0 <= j < rest0.len() ==> ds_val_matches(#[trigger] rest0[j], items[j]),
                out@.len() == i,
                forall|j: int| 0 <= j < i ==> !(items[j] is Dyn),
                forall|j: int| 0 <= j < i ==> sv_matches(#[trigger] out@[j], items[j]->Lit_0),
            decreases rest.len(),
        {
            let ghost r0 = rest@;
            let entry = rest.remove(0);
            proof {
                assert(rest@ =~= r0.drop_first());
                assert(r0[0] == rest0[i as int]);
                assert(ds_val_matches(rest0[i as int], items[i as int]));
            }
            match entry {
                DynamicStyle::Literal(st) => {
                    out.push(st);
                },
                DynamicStyle::Dynamic(_) => {
                    proof {
                        assert(items[i as int] is Dyn);
                    }
                    return Err(crate::diag::error_at(0, "found dynamic style in Styles literal"));
                },
            }
            i = i + 1;
        }
        proof {
            assert(forall|j: int| 0 <= j < items.len() ==> !(items[j] is Dyn));
            assert(spec_styles_str(s@) is Ok);
            assert(spec_styles_str(s@)->Ok_0.len() == items.len());
            assert(forall|j: int|
                0 <= j < items.len() ==> spec_styles_str(s@)->Ok_0[j] == items[j]->Lit_0);
        }
        Ok(Styles(out))
    }
}

} // verus!
