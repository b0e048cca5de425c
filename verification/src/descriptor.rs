//! The package descriptor of a mod: the five required keys, as far as a
//! document holds them.

use vstd::prelude::*;
use vstd::string::StringExecFns;
use crate::error::{Field, LoadError, LoadFailure};
use crate::yaml::{
    as_flag, as_text, entry, error_text, parse_document, yaml_document, yaml_entry,
    yaml_error_text, yaml_flag, yaml_text,
};

verus! {

/// What a document holds under the five required keys. A key is `None` where
/// the document lacks it or holds a value of another type there.
#[derive(Clone, Debug, PartialEq, Eq)]
pub struct Descriptor {
    pub name: Option<String>,
    pub description: Option<String>,
    pub version: Option<String>,
    pub precompiled: Option<bool>,
    pub run: Option<String>,
}

/// The mathematical value of a `Descriptor`.
pub struct DescriptorView {
    pub name: Option<Seq<char>>,
    pub description: Option<Seq<char>>,
    pub version: Option<Seq<char>>,
    pub precompiled: Option<bool>,
    pub run: Option<Seq<char>>,
}

impl DescriptorView {
    /// Whether the descriptor has no usable value under `field`.
    pub open spec fn lacks(self, field: Field) -> bool {
        match field {
            Field::Name => self.name is None,
            Field::Description => self.description is None,
            Field::Version => self.version is None,
            Field::Precompiled => self.precompiled is None,
            Field::Run => self.run is None,
        }
    }

    /// The first required key without a usable value, in the order name,
    /// description, version, precompiled, run; `None` where all five are
    /// there.
    pub open spec fn first_missing(self) -> Option<Field> {
        if self.name is None {
            Some(Field::Name)
        } else if self.description is None {
            Some(Field::Description)
        } else if self.version is None {
            Some(Field::Version)
        } else if self.precompiled is None {
            Some(Field::Precompiled)
        } else if self.run is None {
            Some(Field::Run)
        } else {
            None
        }
    }
}

/// The text that a document holds under `key`, if it holds a string there.
pub open spec fn text_under(doc: serde_yaml::Value, key: Seq<char>) -> Option<Seq<char>> {
    yaml_text(yaml_entry(doc, key))
}

/// The descriptor that a document amounts to.
pub open spec fn descriptor_of(doc: serde_yaml::Value) -> DescriptorView {
    DescriptorView {
        name: text_under(doc, Field::Name.key()),
        description: text_under(doc, Field::Description.key()),
        version: text_under(doc, Field::Version.key()),
        precompiled: yaml_flag(yaml_entry(doc, Field::Precompiled.key())),
        run: text_under(doc, Field::Run.key()),
    }
}

/// The view of an optional string.
pub open spec fn text_view(text: Option<String>) -> Option<Seq<char>> {
    match text {
        Some(s) => Some(s@),
        None => None,
    }
}

impl View for Descriptor {
    type V = DescriptorView;

    open spec fn view(&self) -> DescriptorView {
        DescriptorView {
            name: text_view(self.name),
            description: text_view(self.description),
            version: text_view(self.version),
            precompiled: self.precompiled,
            run: text_view(self.run),
        }
    }
}

/// Copies out the string that a document holds under `field`.
fn read_text(doc: &serde_yaml::Value, field: Field) -> (r: Option<String>)
    ensures
        text_view(r) == text_under(*doc, field.key()),
{
    match as_text(entry(doc, field.as_str())) {
        Some(text) => Some(String::from_str(text)),
        None => None,
    }
}

/// What parsing the bytes of a descriptor file gives for the mod at `path`:
/// the descriptor of the document, or the parser's complaint.
pub open spec fn parsed_descriptor(path: Seq<char>, bytes: Seq<u8>) -> Result<
    DescriptorView,
    LoadFailure,
> {
    match yaml_document(bytes) {
        Ok(doc) => Ok(descriptor_of(doc)),
        Err(e) => Err(LoadFailure::Malformed { path, detail: yaml_error_text(e) }),
    }
}

impl Descriptor {
    /// Parses the bytes of a descriptor file as YAML and reads the five
    /// required keys out of the document. Fails only where the bytes are no
    /// YAML document; a key that is not there is `None` in the result.
    pub fn parse(path: &str, bytes: &[u8]) -> (r: Result<Descriptor, LoadError>)
        ensures
            match r {
                Ok(d) => parsed_descriptor(path@, bytes@) == Ok::<DescriptorView, LoadFailure>(d@),
                Err(e) => parsed_descriptor(path@, bytes@) == Err::<DescriptorView, LoadFailure>(
                    e@,
                ),
            },
    {
        match parse_document(bytes) {
            Ok(doc) => Ok(Descriptor::read(&doc)),
            Err(e) => Err(
                LoadError::Malformed { path: String::from_str(path), detail: error_text(&e) },
            ),
        }
    }

    /// Reads the five required keys out of a parsed document.
    pub(crate) fn read(doc: &serde_yaml::Value) -> (r: Descriptor)
        ensures
            r@ == descriptor_of(*doc),
    {
        let name = read_text(doc, Field::Name);
        let description = read_text(doc, Field::Description);
        let version = read_text(doc, Field::Version);
        let precompiled = as_flag(entry(doc, Field::Precompiled.as_str()));
        let run = read_text(doc, Field::Run);
        Descriptor { name, description, version, precompiled, run }
    }
}

} // verus!
