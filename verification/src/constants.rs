//! Named colors.

pub mod primary;
