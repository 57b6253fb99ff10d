//! Metadata records: a name and a list of key-value pairs, all given as
//! indices into the string table.

use vstd::prelude::*;
use crate::cursor::{Cursor, done, then};
use crate::avm2::{parse_counted, spec_counted, Parse, ParseError, Parsed};

verus! {

/// One key-value pair of a metadata record.
#[derive(Debug, Clone, Copy, PartialEq, Eq, Hash, Structural)]
pub struct MetadataItem {
    pub key_idx: u32,
    pub value_idx: u32,
}

impl DeepView for MetadataItem {
    type V = MetadataItem;

    open spec fn deep_view(&self) -> MetadataItem {
        *self
    }
}

impl Parse for MetadataItem {
    open spec fn spec_parse(input: Seq<u8>) -> Parsed<MetadataItem> {
        then(u32::spec_parse(input), |key_idx: u32, rest: Seq<u8>|
            then(u32::spec_parse(rest), |value_idx: u32, rest: Seq<u8>|
                done(MetadataItem { key_idx, value_idx }, rest)))
    }

    fn parse_avm2(input: &mut Cursor) -> (r: Result<MetadataItem, ParseError>) {
        let key_idx: u32 = u32::parse_avm2(input)?;
        let value_idx: u32 = u32::parse_avm2(input)?;
        Ok(MetadataItem { key_idx, value_idx })
    }
}

/// A metadata record.
#[derive(Debug, Clone)]
pub struct Metadata {
    pub name_idx: u32,
    pub items: Vec<MetadataItem>,
}

/// The model of a [`Metadata`] record.
pub struct MetadataModel {
    pub name_idx: u32,
    pub items: Seq<MetadataItem>,
}

impl DeepView for Metadata {
    type V = MetadataModel;

    open spec fn deep_view(&self) -> MetadataModel {
        MetadataModel { name_idx: self.name_idx, items: self.items.deep_view() }
    }
}

impl Parse for Metadata {
    open spec fn spec_parse(input: Seq<u8>) -> Parsed<MetadataModel> {
        then(u32::spec_parse(input), |name_idx: u32, rest: Seq<u8>|
            then(spec_counted::<MetadataItem>(rest), |items: Seq<MetadataItem>, rest: Seq<u8>|
                done(MetadataModel { name_idx, items }, rest)))
    }

    fn parse_avm2(input: &mut Cursor) -> (r: Result<Metadata, ParseError>) {
        let name_idx: u32 = u32::parse_avm2(input)?;
        let items = parse_counted::<MetadataItem>(input)?;
        Ok(Metadata { name_idx, items })
    }
}

} // verus!
