//! Reading the options that reference an image file with a description:
//! `cover` in release and track manifests, `image` in artist manifests.
//! The files are looked up on disk before: each `file` attribute comes
//! with what was found at the path it names.

use vstd::prelude::*;

use crate::release_manifest::{
    attribute_error_with_snippet, element_error_message, push_element_error, ManifestAttribute,
    ManifestElement,
};
use crate::text::{opt_view, str_equal, views};

verus! {

/// What was found for a `file` attribute: the path it names (joined to the
/// manifest's directory), as shown in messages; whether a file is there;
/// and its path relative to the catalog.
pub struct ReferencedFile {
    pub shown_path: String,
    pub exists: bool,
    pub relative_path: String,
}

/// Which of the two options is read: they differ in their key and in the
/// words of their messages.
#[derive(Clone, Copy, Debug, PartialEq, Eq, Structural)]
pub enum ImageOption {
    /// `cover`, in release and track manifests.
    Cover,
    /// `image`, in artist manifests.
    Image,
}

pub const COVER_SHAPE_ERROR: &'static str = "cover needs to be provided as a field with attributes, e.g.:\n\ncover:\ndescription = Alice, looking amused\nfile = alice.jpg";

pub const IMAGE_SHAPE_ERROR: &'static str = "image needs to be provided as a field with attributes, e.g.:\n\nimage:\ndescription = Alice, looking amused\nfile = alice.jpg";

pub const COVER_ATTRIBUTE_ERROR: &'static str = "The key/name of this attribute was not recognized, only 'description' and 'file' are recognized inside a cover field";

pub const IMAGE_ATTRIBUTE_ERROR: &'static str = "The key/name of this attribute was not recognized, only 'description' and 'file' are recognized inside an image field";

pub const FILE_NOT_FOUND_BEFORE: &'static str = "The referenced file was not found (";

/// The key of the option.
pub open spec fn option_key(option: ImageOption) -> Seq<char> {
    match option {
        ImageOption::Cover => "cover"@,
        ImageOption::Image => "image"@,
    }
}

/// The error for an element of another shape than a field with attributes.
pub open spec fn shape_error(option: ImageOption) -> Seq<char> {
    match option {
        ImageOption::Cover => COVER_SHAPE_ERROR@,
        ImageOption::Image => IMAGE_SHAPE_ERROR@,
    }
}

/// The error for an attribute other than `description` and `file`.
pub open spec fn unknown_attribute_error(option: ImageOption) -> Seq<char> {
    match option {
        ImageOption::Cover => COVER_ATTRIBUTE_ERROR@,
        ImageOption::Image => IMAGE_ATTRIBUTE_ERROR@,
    }
}

/// The error for a file that is not there.
pub open spec fn file_not_found_message(shown_path: Seq<char>) -> Seq<char> {
    FILE_NOT_FOUND_BEFORE@ + shown_path + ")"@
}

/// What the attributes read so far give: the description, the file's path
/// relative to the catalog, and the errors.
pub type ImageAttributes = (Option<Seq<char>>, Option<Seq<char>>, Seq<Seq<char>>);

/// What one attribute does: a `description` or an existing `file` replaces
/// what an earlier one gave, a `file` that is not there is an error about
/// the attribute, and any other attribute an error about the element.
/// Attributes without a value change nothing.
pub open spec fn image_attribute_step(
    state: ImageAttributes,
    attribute: ManifestAttribute,
    file: Option<ReferencedFile>,
    element: ManifestElement,
    manifest_path: Seq<char>,
    option: ImageOption,
) -> ImageAttributes {
    let (description, path, errors) = state;
    let key = attribute.key@;
    if key == "description"@ {
        match attribute.value {
            Some(v) => (Some(v@), path, errors),
            None => state,
        }
    } else if key == "file"@ {
        match (attribute.value, file) {
            (Some(_), Some(f)) => if f.exists {
                (description, Some(f.relative_path@), errors)
            } else {
                (description, path, errors.push(element_error_message(
                    manifest_path,
                    attribute.line_number as nat,
                    attribute.snippet@,
                    file_not_found_message(f.shown_path@),
                )))
            },
            _ => state,
        }
    } else {
        (description, path, errors.push(element_error_message(
            manifest_path,
            element.line_number as nat,
            element.snippet@,
            unknown_attribute_error(option),
        )))
    }
}

/// What the first `n` attributes give, read in order.
pub open spec fn image_attributes(
    attributes: Seq<ManifestAttribute>,
    files: Seq<Option<ReferencedFile>>,
    n: int,
    element: ManifestElement,
    manifest_path: Seq<char>,
    option: ImageOption,
) -> ImageAttributes
    decreases n,
{
    if n <= 0 {
        (None, None, seq![])
    } else {
        image_attribute_step(
            image_attributes(attributes, files, n - 1, element, manifest_path, option),
            attributes[n - 1],
            files[n - 1],
            element,
            manifest_path,
            option,
        )
    }
}

/// What reading an element as the option does: whether its key is the
/// option's, the image read (its description and its path relative to the
/// catalog) if a file was found, and the errors.
pub open spec fn spec_read_image_option(
    element: ManifestElement,
    files: Seq<Option<ReferencedFile>>,
    manifest_path: Seq<char>,
    option: ImageOption,
) -> (bool, Option<(Option<Seq<char>>, Seq<char>)>, Seq<Seq<char>>) {
    if element.key@ != option_key(option) {
        (false, None, seq![])
    } else {
        match element.field_attributes {
            Some(attributes) => {
                let (description, path, errors) = image_attributes(attributes@, files, attributes@.len() as int, element, manifest_path, option);
                match path {
                    Some(p) => (true, Some((description, p)), errors),
                    None => (true, None, errors),
                }
            },
            None => (true, None, seq![element_error_message(manifest_path, element.line_number as nat, element.snippet@, shape_error(option))]),
        }
    }
}

/// Reads an element as `cover` or `image`: a field with a `description`
/// and a `file` attribute, where `files` holds, for each attribute, what
/// was found at the path that a `file` attribute names (`None` for other
/// attributes). Returns whether the key is the option's, and the
/// description and path relative to the catalog of the image, where a file
/// was found; a missing file, an unknown attribute and an element of
/// another shape add errors. Where the key is another, nothing changes.
pub fn read_image_option(
    element: &ManifestElement,
    files: &Vec<Option<ReferencedFile>>,
    manifest_path: &str,
    option: ImageOption,
    errors: &mut Vec<String>,
) -> (read: (bool, Option<(Option<String>, String)>))
    requires
        match element.field_attributes {
            Some(attributes) => files.len() == attributes.len(),
            None => true,
        },
    ensures
        ({
            let (h, image, e) = spec_read_image_option(*element, files@, manifest_path@, option);
            &&& read.0 == h
            &&& match read.1 {
                Some((d, p)) => image == Some((opt_view(d), p@)),
                None => image is None,
            }
            &&& views(final(errors)@) == views(old(errors)@) + e
        }),
{
    let ghost start = views(errors@);
    let key = element.key.as_str();
    let is_key = match option {
        ImageOption::Cover => str_equal(key, "cover"),
        ImageOption::Image => str_equal(key, "image"),
    };
    if !is_key {
        assert(views(errors@) =~= start + Seq::<Seq<char>>::empty());
        return (false, None);
    }
    match &element.field_attributes {
        Some(attributes) => {
            let mut description: Option<String> = None;
            let mut path: Option<String> = None;
            let mut i: usize = 0;
            assert(views(errors@) =~= start + Seq::<Seq<char>>::empty());
            while i < attributes.len()
                invariant
                    i <= attributes.len(),
                    files.len() == attributes.len(),
                    element.field_attributes == Some(*attributes),
                    ({
                        let (d, p, e) = image_attributes(attributes@, files@, i as int, *element, manifest_path@, option);
                        &&& opt_view(description) == d
                        &&& opt_view(path) == p
                        &&& views(errors@) == start + e
                    }),
                decreases attributes.len() - i,
            {
                let attribute = &attributes[i];
                let ghost errors_before = errors@;
                let attribute_key = attribute.key.as_str();
                if str_equal(attribute_key, "description") {
                    if let Some(v) = &attribute.value {
                        description = Some(v.clone());
                    }
                } else if str_equal(attribute_key, "file") {
                    if attribute.value.is_some() {
                        if let Some(f) = &files[i] {
                            if f.exists {
                                path = Some(f.relative_path.clone());
                            } else {
                                let mut message = String::from_str(FILE_NOT_FOUND_BEFORE);
                                message.append(f.shown_path.as_str());
                                message.append(")");
                                let error = attribute_error_with_snippet(attribute, manifest_path, message.as_str());
                                errors.push(error);
                                assert(views(errors@) =~= views(errors_before).push(error@));
                            }
                        }
                    }
                } else {
                    let message = match option {
                        ImageOption::Cover => COVER_ATTRIBUTE_ERROR,
                        ImageOption::Image => IMAGE_ATTRIBUTE_ERROR,
                    };
                    push_element_error(errors, element, manifest_path, message);
                }
                i = i + 1;
            }
            proof {
                let (d, p, e) = image_attributes(attributes@, files@, attributes@.len() as int, *element, manifest_path@, option);
                assert(views(errors@) == start + e);
            }
            match path {
                Some(p) => (true, Some((description, p))),
                None => (true, None),
            }
        },
        None => {
            let message = match option {
                ImageOption::Cover => COVER_SHAPE_ERROR,
                ImageOption::Image => IMAGE_SHAPE_ERROR,
            };
            push_element_error(errors, element, manifest_path, message);
            (true, None)
        },
    }
}

} // verus!
