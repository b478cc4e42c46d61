//! The dimension planner: how many pixels wide and high an image is drawn,
//! given its own size and the columns and rows of the terminal.

use vstd::prelude::*;

verus! {

/// Columns assumed when no width is asked for and no terminal is found.
pub const DEFAULT_COLUMNS: u32 = 80;

/// Rows assumed when no terminal is found.
pub const DEFAULT_ROWS: u32 = 24;

/// Rows left free below the picture for the next prompt.
pub const RESERVED_ROWS: u32 = 1;

/// The columns and rows that a picture may fill.
#[derive(Clone, Copy, Debug, PartialEq, Eq, Structural)]
pub struct TerminalGeometry {
    pub columns: u32,
    pub rows: u32,
}

/// The size in pixels at which an image is drawn. The height that the planner
/// gives is even, so that the rows pair up.
#[derive(Clone, Copy, Debug, PartialEq, Eq, Structural)]
pub struct RenderPlan {
    pub width: u32,
    pub height: u64,
}

/// The columns to fill: the width asked for; else one less than the width
/// of the terminal found, or the default when none was found.
pub open spec fn resolved_columns(requested: Option<u32>, detected: Option<(u16, u16)>) -> nat {
    match (requested, detected) {
        (Some(w), _) => w as nat,
        (None, Some(size)) => if size.0 >= 1 {
            (size.0 - 1) as nat
        } else {
            0
        },
        (None, None) => DEFAULT_COLUMNS as nat,
    }
}

/// The rows available: those of the terminal found, or the default when none was found.
pub open spec fn resolved_rows(detected: Option<(u16, u16)>) -> nat {
    match detected {
        Some(size) => size.1 as nat,
        None => DEFAULT_ROWS as nat,
    }
}

impl TerminalGeometry {
    /// Settles the geometry from the width asked for, if any, and the size of
    /// the terminal as (columns, rows), if one was found.
    pub fn resolve(requested: Option<u32>, detected: Option<(u16, u16)>) -> (geometry:
        TerminalGeometry)
        ensures
            geometry.columns == resolved_columns(requested, detected),
            geometry.rows == resolved_rows(detected),
    {
        let columns: u32 = match requested {
            Some(w) => w,
            None => match detected {
                Some(size) => if size.0 >= 1 {
                    (size.0 - 1) as u32
                } else {
                    0
                },
                None => DEFAULT_COLUMNS,
            },
        };
        let rows: u32 = match detected {
            Some(size) => size.1 as u32,
            None => DEFAULT_ROWS,
        };
        TerminalGeometry { columns, rows }
    }
}

/// `num / den * scale` rounded to the nearest integer, a half upwards.
pub open spec fn round_ratio(num: nat, den: nat, scale: nat) -> nat
    recommends
        den > 0,
{
    (2 * num * scale + den) / (2 * den)
}

/// The width drawn when nothing limits the height: the column budget, but at least 1.
pub open spec fn floored_columns(tw: nat) -> nat {
    if tw >= 1 {
        tw
    } else {
        1
    }
}

/// The most pixel rows that fit: two for each terminal row but the reserved one.
pub open spec fn max_pixel_height(tr: nat) -> nat {
    if tr > RESERVED_ROWS {
        2 * (tr - RESERVED_ROWS) as nat
    } else {
        0
    }
}

/// The height that keeps the image's proportions at the floored column budget.
pub open spec fn proportional_height(ow: nat, oh: nat, tw: nat) -> nat {
    round_ratio(oh, ow, floored_columns(tw))
}

/// Whether the height limit takes over: it is in force and the proportional height exceeds it.
pub open spec fn height_limited(ow: nat, oh: nat, tw: nat, tr: nat, clamp: bool) -> bool {
    clamp && proportional_height(ow, oh, tw) > max_pixel_height(tr)
}

/// `n`, or the next number when `n` is odd.
pub open spec fn even_up(n: nat) -> nat {
    if n % 2 == 1 {
        n + 1
    } else {
        n
    }
}

/// The planned width: the floored column budget, or, where the height limit
/// takes over, the width that keeps the proportions at the limited height.
pub open spec fn planned_width(ow: nat, oh: nat, tw: nat, tr: nat, clamp: bool) -> nat {
    if height_limited(ow, oh, tw, tr, clamp) {
        round_ratio(ow, oh, max_pixel_height(tr))
    } else {
        floored_columns(tw)
    }
}

/// The planned height: the proportional height, or the limit where that is
/// lower, and then made even.
pub open spec fn planned_height(ow: nat, oh: nat, tw: nat, tr: nat, clamp: bool) -> nat {
    if height_limited(ow, oh, tw, tr, clamp) {
        even_up(max_pixel_height(tr))
    } else {
        even_up(proportional_height(ow, oh, tw))
    }
}

/// The rounded ratio is the integer nearest to the exact one: twice their
/// distance, taken over the denominator, is at most the denominator.
pub proof fn lemma_round_ratio_is_nearest(num: nat, den: nat, scale: nat)
    requires
        den > 0,
    ensures
        2 * den * round_ratio(num, den, scale) <= 2 * num * scale + den,
        2 * num * scale + den < 2 * den * round_ratio(num, den, scale) + 2 * den,
{
    let x: int = (2 * num * scale + den) as int;
    let d: int = (2 * den) as int;
    vstd::arithmetic::div_mod::lemma_fundamental_div_mod(x, d);
    vstd::arithmetic::div_mod::lemma_mod_bound(x, d);
    assert(d * (x / d) == 2 * den * round_ratio(num, den, scale)) by (nonlinear_arith)
        requires
            d == 2 * den,
            x / d == round_ratio(num, den, scale),
    ;
}

/// A rounded ratio is at most the product of numerator and scale.
pub proof fn lemma_round_ratio_at_most_product(num: nat, den: nat, scale: nat)
    requires
        den > 0,
    ensures
        round_ratio(num, den, scale) <= num * scale,
{
    lemma_round_ratio_is_nearest(num, den, scale);
    let r = round_ratio(num, den, scale);
    let p = num * scale;
    assert(2 * num * scale == 2 * p) by (nonlinear_arith)
        requires
            p == num * scale,
    ;
    assert(r <= p) by (nonlinear_arith)
        requires
            2 * den * r <= 2 * p + den,
            den > 0,
            r >= 0,
            p >= 0,
    ;
}

/// Where the height limit takes over, the width derived from it is no wider
/// than the column budget.
pub proof fn lemma_limited_width_within_budget(ow: nat, oh: nat, tw: nat, tr: nat)
    requires
        ow > 0,
        oh > 0,
        height_limited(ow, oh, tw, tr, true),
    ensures
        round_ratio(ow, oh, max_pixel_height(tr)) <= floored_columns(tw),
{
    let nw = floored_columns(tw);
    let nh = proportional_height(ow, oh, tw);
    let m = max_pixel_height(tr);
    let w = round_ratio(ow, oh, m);
    lemma_round_ratio_is_nearest(oh, ow, nw);
    lemma_round_ratio_is_nearest(ow, oh, m);
    let a = oh * nw;
    let b = ow * m;
    assert(2 * oh * nw == 2 * a) by (nonlinear_arith)
        requires
            a == oh * nw,
    ;
    assert(2 * ow * m == 2 * b) by (nonlinear_arith)
        requires
            b == ow * m,
    ;
    // From m + 1 <= nh: 2 * ow * (m + 1) <= 2 * ow * nh <= 2 * a + ow.
    assert(2 * b + 2 * ow <= 2 * a + ow) by (nonlinear_arith)
        requires
            m + 1 <= nh,
            2 * ow * nh <= 2 * a + ow,
            b == ow * m,
            ow > 0,
    ;
    // And 2 * oh * w <= 2 * b + oh.
    assert(w <= nw) by (nonlinear_arith)
        requires
            2 * oh * w <= 2 * b + oh,
            2 * b + ow <= 2 * a,
            a == oh * nw,
            oh > 0,
            ow > 0,
            w >= 0,
            nw >= 0,
    ;
}

/// Plans the size at which an image of `ow` by `oh` pixels is drawn in a
/// terminal with a budget of `tw` columns and `tr` rows. The width is the
/// column budget, at least 1, and the height follows from the image's
/// proportions. With `clamp` set, a height over the row budget is cut down to
/// it and the width is derived from that height instead. Last, an odd height is
/// raised by one.
pub fn plan_dimensions(ow: u32, oh: u32, tw: u32, tr: u32, clamp: bool) -> (plan: RenderPlan)
    requires
        ow >= 1,
        oh >= 1,
    ensures
        plan.width == planned_width(ow as nat, oh as nat, tw as nat, tr as nat, clamp),
        plan.height == planned_height(ow as nat, oh as nat, tw as nat, tr as nat, clamp),
        plan.height % 2 == 0,
        clamp ==> plan.height <= max_pixel_height(tr as nat),
        !clamp ==> plan.width >= 1,
{
    let columns: u32 = if tw >= 1 {
        tw
    } else {
        1
    };
    let limit: u64 = if tr > RESERVED_ROWS {
        2 * (tr - RESERVED_ROWS) as u64
    } else {
        0
    };
    proof {
        lemma_round_ratio_at_most_product(oh as nat, ow as nat, columns as nat);
        assert(oh * columns <= 0xffff_ffff * 0xffff_ffff) by (nonlinear_arith)
            requires
                0 <= oh <= 0xffff_ffff,
                0 <= columns <= 0xffff_ffff,
        ;
        assert(2 * oh * columns == 2 * (oh * columns)) by (nonlinear_arith);
    }
    let proportional: u128 = (2 * (oh as u128) * (columns as u128) + ow as u128) / (2
        * (ow as u128));
    let mut width: u32 = columns;
    let mut height: u64 = proportional as u64;
    if clamp && proportional > limit as u128 {
        proof {
            lemma_limited_width_within_budget(ow as nat, oh as nat, tw as nat, tr as nat);
            assert(ow * limit <= 0xffff_ffff * 0x2_0000_0000) by (nonlinear_arith)
                requires
                    0 <= ow <= 0xffff_ffff,
                    0 <= limit <= 0x2_0000_0000,
            ;
            assert(2 * ow * limit == 2 * (ow * limit)) by (nonlinear_arith);
        }
        let derived: u128 = (2 * (ow as u128) * (limit as u128) + oh as u128) / (2
            * (oh as u128));
        width = derived as u32;
        height = limit;
    }
    if height % 2 == 1 {
        height = height + 1;
    }
    RenderPlan { width, height }
}

/// The planned height is even, whatever the image and the budgets.
pub proof fn lemma_planned_height_is_even(ow: nat, oh: nat, tw: nat, tr: nat, clamp: bool)
    ensures
        planned_height(ow, oh, tw, tr, clamp) % 2 == 0,
{
}

/// With the height limit in force, the planned height never exceeds it:
/// the picture takes at most the rows that are free.
pub proof fn lemma_planned_height_within_limit(ow: nat, oh: nat, tw: nat, tr: nat)
    ensures
        planned_height(ow, oh, tw, tr, true) <= max_pixel_height(tr),
        planned_height(ow, oh, tw, tr, true) <= 2 * tr,
{
}

/// Where the exact proportional height exceeds the limit, the planned height
/// is the limit itself, which is even already.
pub proof fn lemma_limit_is_reached(ow: nat, oh: nat, tw: nat, tr: nat)
    requires
        ow > 0,
        oh > 0,
        oh * floored_columns(tw) > ow * max_pixel_height(tr),
    ensures
        proportional_height(ow, oh, tw) >= max_pixel_height(tr),
        planned_height(ow, oh, tw, tr, true) == max_pixel_height(tr),
{
    let nw = floored_columns(tw);
    let m = max_pixel_height(tr);
    let nh = proportional_height(ow, oh, tw);
    lemma_round_ratio_is_nearest(oh, ow, nw);
    let a = oh * nw;
    let b = ow * m;
    assert(2 * oh * nw == 2 * a) by (nonlinear_arith)
        requires
            a == oh * nw,
    ;
    assert(nh >= m) by (nonlinear_arith)
        requires
            2 * a + ow < 2 * ow * nh + 2 * ow,
            a > b,
            b == ow * m,
            ow > 0,
            nh >= 0,
            m >= 0,
    ;
}

/// Where the rounded proportional height exceeds the limit, the height limit
/// dominates: the planned height is the limit and the planned width is
/// derived from it, `ow / oh * height` rounded.
pub proof fn lemma_limit_dominates(ow: nat, oh: nat, tw: nat, tr: nat)
    requires
        ow > 0,
        oh > 0,
        proportional_height(ow, oh, tw) > max_pixel_height(tr),
    ensures
        planned_height(ow, oh, tw, tr, true) == max_pixel_height(tr),
        planned_width(ow, oh, tw, tr, true) == round_ratio(
            ow,
            oh,
            planned_height(ow, oh, tw, tr, true),
        ),
        planned_width(ow, oh, tw, tr, true) <= floored_columns(tw),
{
    lemma_limited_width_within_budget(ow, oh, tw, tr);
}

/// Where the exact proportional height exceeds the limit, the planned height
/// is the limit and the planned width is derived from it. Left out are the
/// inputs on which the height rounds down onto the limit itself while the
/// width derived from the limit differs from the column budget: there the
/// limit does not take over and the width stays the budget.
pub proof fn lemma_exceeding_ratio_is_limited(ow: nat, oh: nat, tw: nat, tr: nat)
    requires
        ow > 0,
        oh > 0,
        oh * floored_columns(tw) > ow * max_pixel_height(tr),
        proportional_height(ow, oh, tw) > max_pixel_height(tr) || round_ratio(
            ow,
            oh,
            max_pixel_height(tr),
        ) == floored_columns(tw),
    ensures
        planned_height(ow, oh, tw, tr, true) == max_pixel_height(tr),
        planned_width(ow, oh, tw, tr, true) == round_ratio(
            ow,
            oh,
            planned_height(ow, oh, tw, tr, true),
        ),
{
    lemma_limit_is_reached(ow, oh, tw, tr);
}

} // verus!
