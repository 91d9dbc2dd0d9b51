//! The box-edge shorthand quads.

use vstd::prelude::*;
use vstd::string::StringExecFns;
use crate::color::Color;
use crate::keywords::LineStyle;
use crate::values::{LengthPercentage, LineWidth, MarginWidth};

verus! {

/// The `bordercolor` shorthand quad of border colors: one, two, three or
/// four space-separated values, standing for all edges, vertical/horizontal,
/// top/horizontal/bottom, or top/right/bottom/left.
#[derive(Debug, Clone, Copy, PartialEq, Eq, Structural)]
pub enum BorderColor {
    All(Color),
    VerticalHorizontal(Color, Color),
    TopHorizontalBottom(Color, Color, Color),
    TopRightBottomLeft(Color, Color, Color, Color),
}

impl BorderColor {
    pub open spec fn wf(self) -> bool {
        match self {
            BorderColor::All(a) => a.wf(),
            BorderColor::VerticalHorizontal(a, b) => a.wf() && b.wf(),
            BorderColor::TopHorizontalBottom(a, b, c) => a.wf() && b.wf() && c.wf(),
            BorderColor::TopRightBottomLeft(a, b, c, d) => a.wf() && b.wf() && c.wf() && d.wf(),
        }
    }

    /// The values present, space-separated, in the arity the value has: the
    /// shorthand is never expanded to four terms.
    pub open spec fn css(self) -> Seq<char> {
        match self {
            BorderColor::All(a) => a.css(),
            BorderColor::VerticalHorizontal(a, b) => a.css() + " "@ + b.css(),
            BorderColor::TopHorizontalBottom(a, b, c) => a.css() + " "@ + b.css() + " "@ + c.css(),
            BorderColor::TopRightBottomLeft(a, b, c, d) => a.css() + " "@ + b.css() + " "@ + c.css()
                + " "@ + d.css(),
        }
    }

    /// Appends the canonical text of `self`.
    #[verifier::rlimit(50)]
    pub fn write_css(&self, out: &mut String)
        ensures
            final(out)@ == old(out)@ + self.css(),
    {
        match self {
            BorderColor::All(a) => a.write_css(out),
            BorderColor::VerticalHorizontal(a, b) => {
                a.write_css(out);
                out.append(" ");
                b.write_css(out);
                proof {
                    crate::text::lemma_cat3(old(out)@, a.css(), " "@, b.css());
                }
            },
            BorderColor::TopHorizontalBottom(a, b, c) => {
                a.write_css(out);
                out.append(" ");
                b.write_css(out);
                out.append(" ");
                c.write_css(out);
                proof {
                    crate::text::lemma_cat5(old(out)@, a.css(), " "@, b.css(), " "@, c.css());
                }
            },
            BorderColor::TopRightBottomLeft(a, b, c, d) => {
                a.write_css(out);
                out.append(" ");
                b.write_css(out);
                out.append(" ");
                c.write_css(out);
                out.append(" ");
                d.write_css(out);
                proof {
                    crate::text::lemma_cat7(
                        old(out)@,
                        a.css(),
                        " "@,
                        b.css(),
                        " "@,
                        c.css(),
                        " "@,
                        d.css(),
                    );
                }
            },
        }
    }
}

/// The `borderstyle` shorthand quad of border line styles: one, two, three or
/// four space-separated values, standing for all edges, vertical/horizontal,
/// top/horizontal/bottom, or top/right/bottom/left.
#[derive(Debug, Clone, Copy, PartialEq, Eq, Structural)]
pub enum BorderStyle {
    All(LineStyle),
    VerticalHorizontal(LineStyle, LineStyle),
    TopHorizontalBottom(LineStyle, LineStyle, LineStyle),
    TopRightBottomLeft(LineStyle, LineStyle, LineStyle, LineStyle),
}

impl BorderStyle {
    pub open spec fn wf(self) -> bool {
        match self {
            BorderStyle::All(a) => true,
            BorderStyle::VerticalHorizontal(a, b) => true && true,
            BorderStyle::TopHorizontalBottom(a, b, c) => true && true && true,
            BorderStyle::TopRightBottomLeft(a, b, c, d) => true && true && true && true,
        }
    }

    /// The values present, space-separated, in the arity the value has: the
    /// shorthand is never expanded to four terms.
    pub open spec fn css(self) -> Seq<char> {
        match self {
            BorderStyle::All(a) => a.css(),
            BorderStyle::VerticalHorizontal(a, b) => a.css() + " "@ + b.css(),
            BorderStyle::TopHorizontalBottom(a, b, c) => a.css() + " "@ + b.css() + " "@ + c.css(),
            BorderStyle::TopRightBottomLeft(a, b, c, d) => a.css() + " "@ + b.css() + " "@ + c.css()
                + " "@ + d.css(),
        }
    }

    /// Appends the canonical text of `self`.
    #[verifier::rlimit(50)]
    pub fn write_css(&self, out: &mut String)
        ensures
            final(out)@ == old(out)@ + self.css(),
    {
        match self {
            BorderStyle::All(a) => a.write_css(out),
            BorderStyle::VerticalHorizontal(a, b) => {
                a.write_css(out);
                out.append(" ");
                b.write_css(out);
                proof {
                    crate::text::lemma_cat3(old(out)@, a.css(), " "@, b.css());
                }
            },
            BorderStyle::TopHorizontalBottom(a, b, c) => {
                a.write_css(out);
                out.append(" ");
                b.write_css(out);
                out.append(" ");
                c.write_css(out);
                proof {
                    crate::text::lemma_cat5(old(out)@, a.css(), " "@, b.css(), " "@, c.css());
                }
            },
            BorderStyle::TopRightBottomLeft(a, b, c, d) => {
                a.write_css(out);
                out.append(" ");
                b.write_css(out);
                out.append(" ");
                c.write_css(out);
                out.append(" ");
                d.write_css(out);
                proof {
                    crate::text::lemma_cat7(
                        old(out)@,
                        a.css(),
                        " "@,
                        b.css(),
                        " "@,
                        c.css(),
                        " "@,
                        d.css(),
                    );
                }
            },
        }
    }
}

/// The `borderwidth` shorthand quad of border line widths: one, two, three or
/// four space-separated values, standing for all edges, vertical/horizontal,
/// top/horizontal/bottom, or top/right/bottom/left.
#[derive(Debug, Clone, Copy, PartialEq, Eq, Structural)]
pub enum BorderWidth {
    All(LineWidth),
    VerticalHorizontal(LineWidth, LineWidth),
    TopHorizontalBottom(LineWidth, LineWidth, LineWidth),
    TopRightBottomLeft(LineWidth, LineWidth, LineWidth, LineWidth),
}

impl BorderWidth {
    pub open spec fn wf(self) -> bool {
        match self {
            BorderWidth::All(a) => a.wf(),
            BorderWidth::VerticalHorizontal(a, b) => a.wf() && b.wf(),
            BorderWidth::TopHorizontalBottom(a, b, c) => a.wf() && b.wf() && c.wf(),
            BorderWidth::TopRightBottomLeft(a, b, c, d) => a.wf() && b.wf() && c.wf() && d.wf(),
        }
    }

    /// The values present, space-separated, in the arity the value has: the
    /// shorthand is never expanded to four terms.
    pub open spec fn css(self) -> Seq<char> {
        match self {
            BorderWidth::All(a) => a.css(),
            BorderWidth::VerticalHorizontal(a, b) => a.css() + " "@ + b.css(),
            BorderWidth::TopHorizontalBottom(a, b, c) => a.css() + " "@ + b.css() + " "@ + c.css(),
            BorderWidth::TopRightBottomLeft(a, b, c, d) => a.css() + " "@ + b.css() + " "@ + c.css()
                + " "@ + d.css(),
        }
    }

    /// Appends the canonical text of `self`.
    #[verifier::rlimit(50)]
    pub fn write_css(&self, out: &mut String)
        ensures
            final(out)@ == old(out)@ + self.css(),
    {
        match self {
            BorderWidth::All(a) => a.write_css(out),
            BorderWidth::VerticalHorizontal(a, b) => {
                a.write_css(out);
                out.append(" ");
                b.write_css(out);
                proof {
                    crate::text::lemma_cat3(old(out)@, a.css(), " "@, b.css());
                }
            },
            BorderWidth::TopHorizontalBottom(a, b, c) => {
                a.write_css(out);
                out.append(" ");
                b.write_css(out);
                out.append(" ");
                c.write_css(out);
                proof {
                    crate::text::lemma_cat5(old(out)@, a.css(), " "@, b.css(), " "@, c.css());
                }
            },
            BorderWidth::TopRightBottomLeft(a, b, c, d) => {
                a.write_css(out);
                out.append(" ");
                b.write_css(out);
                out.append(" ");
                c.write_css(out);
                out.append(" ");
                d.write_css(out);
                proof {
                    crate::text::lemma_cat7(
                        old(out)@,
                        a.css(),
                        " "@,
                        b.css(),
                        " "@,
                        c.css(),
                        " "@,
                        d.css(),
                    );
                }
            },
        }
    }
}

/// The `margin` shorthand quad of margin widths: one, two, three or
/// four space-separated values, standing for all edges, vertical/horizontal,
/// top/horizontal/bottom, or top/right/bottom/left.
#[derive(Debug, Clone, Copy, PartialEq, Eq, Structural)]
pub enum Margin {
    All(MarginWidth),
    VerticalHorizontal(MarginWidth, MarginWidth),
    TopHorizontalBottom(MarginWidth, MarginWidth, MarginWidth),
    TopRightBottomLeft(MarginWidth, MarginWidth, MarginWidth, MarginWidth),
}

impl Margin {
    pub open spec fn wf(self) -> bool {
        match self {
            Margin::All(a) => a.wf(),
            Margin::VerticalHorizontal(a, b) => a.wf() && b.wf(),
            Margin::TopHorizontalBottom(a, b, c) => a.wf() && b.wf() && c.wf(),
            Margin::TopRightBottomLeft(a, b, c, d) => a.wf() && b.wf() && c.wf() && d.wf(),
        }
    }

    /// The values present, space-separated, in the arity the value has: the
    /// shorthand is never expanded to four terms.
    pub open spec fn css(self) -> Seq<char> {
        match self {
            Margin::All(a) => a.css(),
            Margin::VerticalHorizontal(a, b) => a.css() + " "@ + b.css(),
            Margin::TopHorizontalBottom(a, b, c) => a.css() + " "@ + b.css() + " "@ + c.css(),
            Margin::TopRightBottomLeft(a, b, c, d) => a.css() + " "@ + b.css() + " "@ + c.css()
                + " "@ + d.css(),
        }
    }

    /// Appends the canonical text of `self`.
    #[verifier::rlimit(50)]
    pub fn write_css(&self, out: &mut String)
        ensures
            final(out)@ == old(out)@ + self.css(),
    {
        match self {
            Margin::All(a) => a.write_css(out),
            Margin::VerticalHorizontal(a, b) => {
                a.write_css(out);
                out.append(" ");
                b.write_css(out);
                proof {
                    crate::text::lemma_cat3(old(out)@, a.css(), " "@, b.css());
                }
            },
            Margin::TopHorizontalBottom(a, b, c) => {
                a.write_css(out);
                out.append(" ");
                b.write_css(out);
                out.append(" ");
                c.write_css(out);
                proof {
                    crate::text::lemma_cat5(old(out)@, a.css(), " "@, b.css(), " "@, c.css());
                }
            },
            Margin::TopRightBottomLeft(a, b, c, d) => {
                a.write_css(out);
                out.append(" ");
                b.write_css(out);
                out.append(" ");
                c.write_css(out);
                out.append(" ");
                d.write_css(out);
                proof {
                    crate::text::lemma_cat7(
                        old(out)@,
                        a.css(),
                        " "@,
                        b.css(),
                        " "@,
                        c.css(),
                        " "@,
                        d.css(),
                    );
                }
            },
        }
    }
}

/// The `padding` shorthand quad of padding widths: one, two, three or
/// four space-separated values, standing for all edges, vertical/horizontal,
/// top/horizontal/bottom, or top/right/bottom/left.
#[derive(Debug, Clone, Copy, PartialEq, Eq, Structural)]
pub enum Padding {
    All(LengthPercentage),
    VerticalHorizontal(LengthPercentage, LengthPercentage),
    TopHorizontalBottom(LengthPercentage, LengthPercentage, LengthPercentage),
    TopRightBottomLeft(LengthPercentage, LengthPercentage, LengthPercentage, LengthPercentage),
}

impl Padding {
    pub open spec fn wf(self) -> bool {
        match self {
            Padding::All(a) => a.wf(),
            Padding::VerticalHorizontal(a, b) => a.wf() && b.wf(),
            Padding::TopHorizontalBottom(a, b, c) => a.wf() && b.wf() && c.wf(),
            Padding::TopRightBottomLeft(a, b, c, d) => a.wf() && b.wf() && c.wf() && d.wf(),
        }
    }

    /// The values present, space-separated, in the arity the value has: the
    /// shorthand is never expanded to four terms.
    pub open spec fn css(self) -> Seq<char> {
        match self {
            Padding::All(a) => a.css(),
            Padding::VerticalHorizontal(a, b) => a.css() + " "@ + b.css(),
            Padding::TopHorizontalBottom(a, b, c) => a.css() + " "@ + b.css() + " "@ + c.css(),
            Padding::TopRightBottomLeft(a, b, c, d) => a.css() + " "@ + b.css() + " "@ + c.css()
                + " "@ + d.css(),
        }
    }

    /// Appends the canonical text of `self`.
    #[verifier::rlimit(50)]
    pub fn write_css(&self, out: &mut String)
        ensures
            final(out)@ == old(out)@ + self.css(),
    {
        match self {
            Padding::All(a) => a.write_css(out),
            Padding::VerticalHorizontal(a, b) => {
                a.write_css(out);
                out.append(" ");
                b.write_css(out);
                proof {
                    crate::text::lemma_cat3(old(out)@, a.css(), " "@, b.css());
                }
            },
            Padding::TopHorizontalBottom(a, b, c) => {
                a.write_css(out);
                out.append(" ");
                b.write_css(out);
                out.append(" ");
                c.write_css(out);
                proof {
                    crate::text::lemma_cat5(old(out)@, a.css(), " "@, b.css(), " "@, c.css());
                }
            },
            Padding::TopRightBottomLeft(a, b, c, d) => {
                a.write_css(out);
                out.append(" ");
                b.write_css(out);
                out.append(" ");
                c.write_css(out);
                out.append(" ");
                d.write_css(out);
                proof {
                    crate::text::lemma_cat7(
                        old(out)@,
                        a.css(),
                        " "@,
                        b.css(),
                        " "@,
                        c.css(),
                        " "@,
                        d.css(),
                    );
                }
            },
        }
    }
}

} // verus!
