//! Tag classifier: resolves a way's free-form directional tags (for an
//! attribute prefix such as `sidewalk`) into a closed left/right pair of
//! values.
//!
//! Resolution order, later steps overriding earlier ones: the legacy
//! unsuffixed tag sets both sides through a suffix-to-sides mapping, then
//! `<prefix>:left` and `<prefix>:right` override their side, and
//! `<prefix>:both` overrides both sides last. Unrecognized or absent values
//! always resolve to `Unknown`; classification never fails.

use crate::map_data::{str_eq, way_tag, TagDict};
use vstd::prelude::*;
use vstd::string::StringExecFns;

verus! {

/// Resolved value of one side: `sidewalk:left=yes` gives `Yes`.
#[derive(Clone, Copy, Debug, PartialEq, Eq, Structural)]
pub enum TagValue {
    Yes,
    No,
    Separate,
    Unknown,
}

/// Suffix of the legacy unsuffixed tag: `sidewalk=left` gives `Left`.
#[derive(Clone, Copy, Debug, PartialEq, Eq, Structural)]
pub enum TagSuffix {
    Left,
    Right,
    Both,
    Separate,
    No,
    Unknown,
}

/// A resolved pair of per-side values for one attribute prefix.
#[derive(Clone, Copy, Debug, PartialEq, Eq, Structural)]
pub struct Attribute2D {
    pub left: TagValue,
    pub right: TagValue,
}

/// How a tag value string resolves to a side value.
pub open spec fn tag_value_of(v: Seq<char>) -> TagValue {
    if v == "yes"@ {
        TagValue::Yes
    } else if v == "no"@ || v == "none"@ {
        TagValue::No
    } else if v == "separate"@ {
        TagValue::Separate
    } else {
        TagValue::Unknown
    }
}

/// How the legacy unsuffixed tag's value resolves to a suffix.
pub open spec fn tag_suffix_of(v: Seq<char>) -> TagSuffix {
    if v == "left"@ {
        TagSuffix::Left
    } else if v == "right"@ {
        TagSuffix::Right
    } else if v == "both"@ {
        TagSuffix::Both
    } else if v == "separate"@ {
        TagSuffix::Separate
    } else if v == "no"@ || v == "none"@ {
        TagSuffix::No
    } else {
        TagSuffix::Unknown
    }
}

/// The pair of sides set by the legacy unsuffixed tag.
pub open spec fn suffix_sides(s: TagSuffix) -> Attribute2D {
    match s {
        TagSuffix::Left => Attribute2D { left: TagValue::Yes, right: TagValue::No },
        TagSuffix::Right => Attribute2D { left: TagValue::No, right: TagValue::Yes },
        TagSuffix::Both => Attribute2D { left: TagValue::Yes, right: TagValue::Yes },
        TagSuffix::Separate => Attribute2D { left: TagValue::Separate, right: TagValue::Separate },
        TagSuffix::No => Attribute2D { left: TagValue::No, right: TagValue::No },
        TagSuffix::Unknown => Attribute2D { left: TagValue::Unknown, right: TagValue::Unknown },
    }
}

/// The full classification: legacy tag first, then `:left`, `:right` and
/// `:both` overrides, in that order.
pub open spec fn classify_spec(tags: Option<TagDict>, prefix: Seq<char>) -> Attribute2D {
    let base = match way_tag(tags, prefix) {
        Some(v) => suffix_sides(tag_suffix_of(v)),
        None => Attribute2D { left: TagValue::Unknown, right: TagValue::Unknown },
    };
    let left = match way_tag(tags, prefix + ":left"@) {
        Some(v) => tag_value_of(v),
        None => base.left,
    };
    let right = match way_tag(tags, prefix + ":right"@) {
        Some(v) => tag_value_of(v),
        None => base.right,
    };
    match way_tag(tags, prefix + ":both"@) {
        Some(v) => Attribute2D { left: tag_value_of(v), right: tag_value_of(v) },
        None => Attribute2D { left, right },
    }
}

impl TagValue {
    /// Resolve a tag value string.
    pub fn from_value(v: &str) -> (r: TagValue)
        ensures
            r == tag_value_of(v@),
    {
        if str_eq(v, "yes") {
            TagValue::Yes
        } else if str_eq(v, "no") || str_eq(v, "none") {
            TagValue::No
        } else if str_eq(v, "separate") {
            TagValue::Separate
        } else {
            TagValue::Unknown
        }
    }
}

impl TagSuffix {
    /// Resolve the legacy unsuffixed tag's value.
    pub fn from_value(v: &str) -> (r: TagSuffix)
        ensures
            r == tag_suffix_of(v@),
    {
        if str_eq(v, "left") {
            TagSuffix::Left
        } else if str_eq(v, "right") {
            TagSuffix::Right
        } else if str_eq(v, "both") {
            TagSuffix::Both
        } else if str_eq(v, "separate") {
            TagSuffix::Separate
        } else if str_eq(v, "no") || str_eq(v, "none") {
            TagSuffix::No
        } else {
            TagSuffix::Unknown
        }
    }
}

impl Attribute2D {
    /// The sides set by a legacy suffix.
    pub fn from_suffix(s: TagSuffix) -> (r: Attribute2D)
        ensures
            r == suffix_sides(s),
    {
        match s {
            TagSuffix::Left => Attribute2D { left: TagValue::Yes, right: TagValue::No },
            TagSuffix::Right => Attribute2D { left: TagValue::No, right: TagValue::Yes },
            TagSuffix::Both => Attribute2D { left: TagValue::Yes, right: TagValue::Yes },
            TagSuffix::Separate => Attribute2D {
                left: TagValue::Separate,
                right: TagValue::Separate,
            },
            TagSuffix::No => Attribute2D { left: TagValue::No, right: TagValue::No },
            TagSuffix::Unknown => Attribute2D {
                left: TagValue::Unknown,
                right: TagValue::Unknown,
            },
        }
    }

    /// Classify the attribute `attribute_prefix` from a tag dictionary.
    pub fn new(tags: &TagDict, attribute_prefix: &str) -> (r: Attribute2D)
        ensures
            r == classify_spec(Some(*tags), attribute_prefix@),
    {
        let key_left: String = attribute_prefix.to_owned().concat(":left");
        let key_right: String = attribute_prefix.to_owned().concat(":right");
        let key_both: String = attribute_prefix.to_owned().concat(":both");
        let mut r: Attribute2D = match tags.get(attribute_prefix) {
            Some(v) => Attribute2D::from_suffix(TagSuffix::from_value(v.as_str())),
            None => Attribute2D { left: TagValue::Unknown, right: TagValue::Unknown },
        };
        if let Some(v) = tags.get(key_left.as_str()) {
            r.left = TagValue::from_value(v.as_str());
        }
        if let Some(v) = tags.get(key_right.as_str()) {
            r.right = TagValue::from_value(v.as_str());
        }
        if let Some(v) = tags.get(key_both.as_str()) {
            let both = TagValue::from_value(v.as_str());
            r.left = both;
            r.right = both;
        }
        r
    }
}

/// Classify an attribute through a way's optional tag dictionary: a way
/// without tags resolves to `Unknown` on both sides.
pub fn classify_attribute_by_side(tags: &Option<TagDict>, attribute_prefix: &str) -> (r:
    Attribute2D)
    ensures
        r == classify_spec(*tags, attribute_prefix@),
{
    match tags {
        Some(d) => Attribute2D::new(d, attribute_prefix),
        None => Attribute2D { left: TagValue::Unknown, right: TagValue::Unknown },
    }
}

} // verus!
