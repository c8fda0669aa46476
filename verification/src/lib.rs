//! Screenshot areas, PNG cropping and the decisions of a screenshot run.
pub mod area;
pub mod attempt;
pub mod capture;
pub mod codec;
pub mod crop;
pub mod flow;
pub mod image;
pub mod naming;
pub mod payload;
pub mod png_header;
pub mod text;
pub mod uri;
