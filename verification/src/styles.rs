//! Ordered property lists.

use vstd::prelude::*;
use vstd::string::StringExecFns;
use crate::property::Style;
use crate::text::EscapeBlock;

verus! {

/// An ordered, insertion-order-preserving list of properties.  Entries are
/// appended only; duplicates are kept — no cascade or last-wins rule is
/// applied here.
#[derive(Debug, Clone, PartialEq)]
pub struct Styles(pub Vec<Style>);

/// One entry of a dynamic property list: a literal property, or an escape
/// block standing for a whole entry.
#[derive(Debug, Clone, PartialEq)]
pub enum DynamicStyle {
    Literal(Style),
    Dynamic(EscapeBlock),
}

/// Like [`Styles`], but each entry may be an escape block.
#[derive(Debug, Clone, PartialEq)]
pub struct DynamicStyles(pub Vec<DynamicStyle>);

impl DynamicStyle {
    /// Whether the entry is an escape block, or a literal whose value is one.
    pub open spec fn is_dynamic_spec(self) -> bool {
        match self {
            DynamicStyle::Literal(style) => style.is_dynamic_spec(),
            DynamicStyle::Dynamic(_) => true,
        }
    }

    /// Whether the entry is the no-op property.
    pub open spec fn is_dummy_spec(self) -> bool {
        match self {
            DynamicStyle::Literal(style) => style.is_dummy_spec(),
            DynamicStyle::Dynamic(_) => false,
        }
    }

    /// Whether the entry is an escape block, or a literal whose value is one.
    pub fn is_dynamic(&self) -> (r: bool)
        ensures
            r == self.is_dynamic_spec(),
    {
        match self {
            DynamicStyle::Literal(style) => style.is_dynamic(),
            DynamicStyle::Dynamic(_) => true,
        }
    }

    /// Whether the entry is the no-op property.
    pub fn is_dummy(&self) -> (r: bool)
        ensures
            r == self.is_dummy_spec(),
    {
        match self {
            DynamicStyle::Literal(style) => style.is_dummy(),
            DynamicStyle::Dynamic(_) => false,
        }
    }

    /// The literal's text; an escape block renders as nothing.
    pub open spec fn css(self) -> Seq<char> {
        match self {
            DynamicStyle::Literal(style) => style.css(),
            DynamicStyle::Dynamic(_) => Seq::empty(),
        }
    }

    /// Appends the canonical text of `self`.
    pub fn write_css(&self, out: &mut String)
        ensures
            final(out)@ == old(out)@ + self.css(),
    {
        match self {
            DynamicStyle::Literal(style) => style.write_css(out),
            DynamicStyle::Dynamic(_) => {
                proof {
                    assert(final(out)@ =~= old(out)@ + Seq::<char>::empty());
                }
            },
        }
    }

    /// The canonical text of `self` as an owned string.
    pub fn to_css_string(&self) -> (r: String)
        ensures
            r@ == self.css(),
    {
        let mut out = String::new();
        self.write_css(&mut out);
        out
    }
}

/// The canonical text of a property list: every entry but the no-op ones,
/// rendered as `text;`, concatenated in order.
pub open spec fn css_styles(ss: Seq<Style>) -> Seq<char>
    decreases ss.len(),
{
    if ss.len() == 0 {
        Seq::empty()
    } else {
        (if ss[0].is_dummy_spec() {
            Seq::<char>::empty()
        } else {
            ss[0].css() + ";"@
        }) + css_styles(ss.drop_first())
    }
}

/// The canonical text of a dynamic property list: entries that are no-ops
/// or escape blocks are skipped entirely.
pub open spec fn css_dynamic_styles(ss: Seq<DynamicStyle>) -> Seq<char>
    decreases ss.len(),
{
    if ss.len() == 0 {
        Seq::empty()
    } else {
        (if ss[0].is_dummy_spec() || ss[0].is_dynamic_spec() {
            Seq::<char>::empty()
        } else {
            ss[0].css() + ";"@
        }) + css_dynamic_styles(ss.drop_first())
    }
}

/// The literal entries of a dynamic list, in order, escape blocks dropped.
pub open spec fn literals_of(ds: Seq<DynamicStyle>) -> Seq<Style>
    decreases ds.len(),
{
    if ds.len() == 0 {
        Seq::empty()
    } else {
        (match ds[0] {
            DynamicStyle::Literal(st) => seq![st],
            DynamicStyle::Dynamic(_) => Seq::<Style>::empty(),
        }) + literals_of(ds.drop_first())
    }
}

impl Styles {
    /// Validity of every entry.
    pub open spec fn wf(self) -> bool {
        forall|i: int| 0 <= i < self.0@.len() ==> (#[trigger] self.0@[i]).wf()
    }

    /// An empty list.
    pub fn new() -> (r: Styles)
        ensures
            r.0@ =~= Seq::<Style>::empty(),
    {
        Styles(Vec::new())
    }

    /// Appends one property.
    pub fn add(&mut self, style: Style)
        ensures
            final(self).0@ == old(self).0@.push(style),
    {
        self.0.push(style);
    }

    /// Appends every property of `other`, in order.
    pub fn merge(&mut self, other: Styles)
        ensures
            final(self).0@ == old(self).0@ + other.0@,
    {
        let mut o = other;
        self.0.append(&mut o.0);
    }

    /// The literal entries of a dynamic list, escape-block entries dropped.
    pub fn from_dynamic(dy: DynamicStyles) -> (r: Styles)
        ensures
            r.0@ == literals_of(dy.0@),
    {
        let ghost orig = dy.0@;
        let mut rest = dy.0;
        let mut out: Vec<Style> = Vec::new();
        proof {
            assert(out@ + literals_of(rest@) =~= literals_of(orig));
        }
        while rest.len() > 0
            invariant
                out@ + literals_of(rest@) == literals_of(orig),
            decreases rest.len(),
        {
            let ghost pre = out@;
            let ghost r0 = rest@;
            let entry = rest.remove(0);
            proof {
                assert(rest@ =~= r0.drop_first());
            }
            match entry {
                DynamicStyle::Literal(st) => {
                    out.push(st);
                    proof {
                        assert(out@ =~= pre + seq![r0[0]->Literal_0]);
                        crate::text::lemma_cat2_any::<Style>(
                            pre,
                            seq![r0[0]->Literal_0],
                            literals_of(rest@),
                        );
                    }
                },
                DynamicStyle::Dynamic(_) => {
                    proof {
                        assert(Seq::<Style>::empty() + literals_of(rest@) =~= literals_of(rest@));
                    }
                },
            }
        }
        proof {
            assert(out@ + Seq::<Style>::empty() =~= out@);
        }
        Styles(out)
    }

    /// The canonical text: each non-dummy entry as `text;`, in order.
    pub open spec fn css(self) -> Seq<char> {
        css_styles(self.0@)
    }

    /// Appends the canonical text of `self`.
    pub fn write_css(&self, out: &mut String)
        ensures
            final(out)@ == old(out)@ + self.css(),
    {
        let len = self.0.len();
        let mut i: usize = 0;
        proof {
            assert(self.0@.skip(0) =~= self.0@);
            assert(old(out)@ + Seq::<char>::empty() =~= old(out)@);
        }
        while i < len
            invariant
                i <= len,
                len == self.0@.len(),
                out@ + css_styles(self.0@.skip(i as int)) == old(out)@ + css_styles(self.0@),
            decreases len - i,
        {
            let ghost pre = out@;
            let ghost rest = self.0@.skip(i as int);
            proof {
                assert(rest[0] == self.0@[i as int]);
                assert(rest.drop_first() =~= self.0@.skip(i as int + 1));
            }
            let st = &self.0[i];
            if !st.is_dummy() {
                st.write_css(out);
                out.append(";");
                proof {
                    crate::text::lemma_cat2(pre, st.css(), ";"@);
                    crate::text::lemma_cat2(pre, st.css() + ";"@, css_styles(self.0@.skip(
                        i as int + 1,
                    )));
                }
            } else {
                proof {
                    assert(Seq::<char>::empty() + css_styles(self.0@.skip(i as int + 1))
                        =~= css_styles(self.0@.skip(i as int + 1)));
                }
            }
            i = i + 1;
        }
        proof {
            assert(self.0@.skip(len as int) =~= Seq::<Style>::empty());
            assert(out@ + Seq::<char>::empty() =~= out@);
        }
    }

    /// The canonical text of `self` as an owned string.
    pub fn to_css_string(&self) -> (r: String)
        ensures
            r@ == self.css(),
    {
        let mut out = String::new();
        self.write_css(&mut out);
        out
    }
}

impl DynamicStyles {
    /// Validity of every literal entry.
    pub open spec fn wf(self) -> bool {
        forall|i: int|
            0 <= i < self.0@.len() ==> match #[trigger] self.0@[i] {
                DynamicStyle::Literal(st) => st.wf(),
                DynamicStyle::Dynamic(_) => true,
            }
    }

    /// The canonical text: each entry that is neither a no-op nor an escape
    /// block, as `text;`, in order.
    pub open spec fn css(self) -> Seq<char> {
        css_dynamic_styles(self.0@)
    }

    /// Appends the canonical text of `self`.
    pub fn write_css(&self, out: &mut String)
        ensures
            final(out)@ == old(out)@ + self.css(),
    {
        let len = self.0.len();
        let mut i: usize = 0;
        proof {
            assert(self.0@.skip(0) =~= self.0@);
            assert(old(out)@ + Seq::<char>::empty() =~= old(out)@);
        }
        while i < len
            invariant
                i <= len,
                len == self.0@.len(),
                out@ + css_dynamic_styles(self.0@.skip(i as int)) == old(out)@
                    + css_dynamic_styles(self.0@),
            decreases len - i,
        {
            let ghost pre = out@;
            let ghost rest = self.0@.skip(i as int);
            proof {
                assert(rest[0] == self.0@[i as int]);
                assert(rest.drop_first() =~= self.0@.skip(i as int + 1));
            }
            let st = &self.0[i];
            if !st.is_dynamic() && !st.is_dummy() {
                st.write_css(out);
                out.append(";");
                proof {
                    crate::text::lemma_cat2(pre, st.css(), ";"@);
                    crate::text::lemma_cat2(pre, st.css() + ";"@, css_dynamic_styles(
                        self.0@.skip(i as int + 1),
                    ));
                }
            } else {
                proof {
                    assert(Seq::<char>::empty() + css_dynamic_styles(self.0@.skip(i as int + 1))
                        =~= css_dynamic_styles(self.0@.skip(i as int + 1)));
                }
            }
            i = i + 1;
        }
        proof {
            assert(self.0@.skip(len as int) =~= Seq::<DynamicStyle>::empty());
            assert(out@ + Seq::<char>::empty() =~= out@);
        }
    }

    /// The canonical text of `self` as an owned string.
    pub fn to_css_string(&self) -> (r: String)
        ensures
            r@ == self.css(),
    {
        let mut out = String::new();
        self.write_css(&mut out);
        out
    }
}

} // verus!
