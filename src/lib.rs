//! Build plans for container images: phases with ordered commands and
//! dependency lists, a deterministic merge of layered plans, a text form that
//! reads back to the same plan, and the option defaults and checks that come
//! before an image build.

pub mod env;
pub mod generator;
pub mod laws;
pub mod options;
pub mod phase;
pub mod plan;
pub mod text;
