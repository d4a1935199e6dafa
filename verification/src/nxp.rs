//! NXP boards.

pub mod imx8mn;
