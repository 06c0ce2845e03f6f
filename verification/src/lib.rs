//! Decoder for recorded-match binary replay streams.
//!
//! The library walks a length-delimited, tag-typed byte stream, interprets
//! the frames it finds into typed demo messages, folds the ordered message
//! sequence into kills, headshots, clutches, rounds and player statistics,
//! and returns the whole structured model to the caller.

pub mod demo_parser;
pub mod error;
pub mod event_extractor;
pub mod events;
pub mod protobuf_parser;
pub mod utils;
pub mod validation;

pub use demo_parser::{CS2Parser, ParseOptions};
pub use error::DemoError;
pub use event_extractor::EventExtractor;
pub use events::{Clutch, DemoEvents, GameEvent, Headshot, Kill, Round};
pub use protobuf_parser::ProtobufParser;

use vstd::prelude::*;

use crate::demo_parser::{spec_decode, spec_default_options};
use crate::events::DemoEventsV;
use vstd::slice::slice_to_vec;

verus! {

/// The decoder's front end: create one, hand it demo bytes, get the
/// structured event model back.
pub struct CS2DemoCore {
    /// The decoder behind this front end.
    pub parser: CS2Parser,
}

impl CS2DemoCore {
    /// A front end over a decoder with the default options.
    pub fn new() -> (r: CS2DemoCore)
        ensures
            r.parser.options == spec_default_options(),
    {
        CS2DemoCore { parser: CS2Parser::new() }
    }

    /// Decode a complete demo buffer into the structured model.
    pub fn parse_bytes(&self, data: &[u8]) -> (r: Result<DemoEvents, DemoError>)
        ensures
            match r {
                Ok(ev) => spec_decode(data@, self.parser.options.calculate_stats) == Ok::<
                    DemoEventsV,
                    DemoError,
                >(ev@),
                Err(e) => spec_decode(data@, self.parser.options.calculate_stats) == Err::<
                    DemoEventsV,
                    DemoError,
                >(e),
            },
    {
        self.parser.parse_bytes_sync(slice_to_vec(data))
    }

    /// The decoder behind this front end, for direct use.
    pub fn parser(&self) -> (r: &CS2Parser)
        ensures
            r == &self.parser,
    {
        &self.parser
    }
}

impl Default for CS2DemoCore {
    /// A front end over a decoder with the default options.
    fn default() -> (r: CS2DemoCore)
        ensures
            r.parser.options == spec_default_options(),
    {
        CS2DemoCore::new()
    }
}

} // verus!
