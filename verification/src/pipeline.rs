//! The whole way from a bitmap to the bytes for the terminal: plan the
//! size, scale the image, draw the cells.

use vstd::prelude::*;
use crate::bitmap::Bitmap;
use crate::color::{ColorMode, Rgb};
use crate::planner::{plan_dimensions, planned_height, planned_width, RenderPlan, TerminalGeometry};
use crate::render::{render, rendered};
use crate::resample::{plan_fits, try_resample};

verus! {

/// What a picture is drawn with: the columns and rows to fill, whether the
/// rows limit the height, and how colors are written.
#[derive(Clone, Copy, Debug, PartialEq, Eq, Structural)]
pub struct Settings {
    pub geometry: TerminalGeometry,
    pub clamp_to_terminal_height: bool,
    pub mode: ColorMode,
}

/// The plan for an image of `ow` by `oh` pixels under the given settings.
pub open spec fn plan_for(ow: nat, oh: nat, settings: Settings) -> RenderPlan {
    RenderPlan {
        width: planned_width(
            ow,
            oh,
            settings.geometry.columns as nat,
            settings.geometry.rows as nat,
            settings.clamp_to_terminal_height,
        ) as u32,
        height: planned_height(
            ow,
            oh,
            settings.geometry.columns as nat,
            settings.geometry.rows as nat,
            settings.clamp_to_terminal_height,
        ) as u64,
    }
}

/// Whether `grid` has `height` rows of `width` pixels each.
pub open spec fn has_size(grid: Seq<Seq<Rgb>>, width: nat, height: nat) -> bool {
    &&& grid.len() == height
    &&& forall|y: int| 0 <= y < height ==> (#[trigger] grid[y]).len() == width
}

/// Draws the image for the terminal: plans the size, scales the image to
/// it and writes every pair of rows as a line of cells. The picture is that
/// of some image of exactly the planned size; where the image already has
/// that size, it is the picture of the image itself. There is no picture
/// where the plan does not fit: where the image or the planned size has a
/// side beyond the scaler's longest, or a buffer would not fit in memory.
pub fn draw(bitmap: &Bitmap, settings: &Settings) -> (picture: Option<Vec<u8>>)
    requires
        bitmap.spec_width() >= 1,
        bitmap.spec_height() >= 1,
    ensures
        picture is Some <==> plan_fits(
            bitmap.spec_width(),
            bitmap.spec_height(),
            plan_for(bitmap.spec_width(), bitmap.spec_height(), *settings),
        ),
        picture matches Some(bytes) ==> {
            let plan = plan_for(bitmap.spec_width(), bitmap.spec_height(), *settings);
            &&& exists|grid: Seq<Seq<Rgb>>| #[trigger]
                has_size(grid, plan.width as nat, plan.height as nat) && bytes@ == rendered(
                    grid,
                    settings.mode,
                )
            &&& (plan.width == bitmap.spec_width() && plan.height == bitmap.spec_height()
                ==> bytes@ == rendered(bitmap@, settings.mode))
        },
{
    let plan: RenderPlan = plan_dimensions(
        bitmap.width(),
        bitmap.height(),
        settings.geometry.columns,
        settings.geometry.rows,
        settings.clamp_to_terminal_height,
    );
    match try_resample(bitmap, &plan) {
        Some(scaled) => {
            let bytes: Vec<u8> = render(&scaled, settings.mode);
            proof {
                assert(has_size(scaled@, plan.width as nat, plan.height as nat));
            }
            Some(bytes)
        },
        None => None,
    }
}

} // verus!
