//! The HDR workflow for a folder: which tools run on each bracket set, with
//! which arguments, on which files, and how the results of the sets add up.

pub mod processor;
pub mod external_blender;
pub mod external_luminance;
pub mod ev_calc;
pub mod opencv_align;
pub mod opencv_merge;
pub mod opencv_tonemap;
