//! Reading the `link` option, which artist, catalog, release and track
//! manifests share: either a field with a url as its value, or a field with
//! `label`, `url` and `verification` attributes.

use vstd::prelude::*;

use crate::link::{link_views, spec_pretty_display, Link, LinkView};
use crate::release_manifest::{
    attribute_error_with_snippet, check_url, element_error_message, push_element_error, url_parse_error,
    ManifestAttribute, ManifestElement,
};
use crate::text::{opt_view, starts_with, starts_with_str, str_equal, views};

verus! {

pub const LINK_SHAPE_ERROR: &'static str = "link must be provided as a basic field with a value (e.g. 'link: https://example.com') or in its extended form as a field with attributes, e.g.:\n\nlink:\nlabel = Example\nurl = https://example.com\n";

pub const LINK_URL_MISSING: &'static str = "The link option must supply an url attribute at least, e.g.:\n\nlink:\nurl = https://example.com";

pub const ANCHOR_VALUE_BEFORE: &'static str = "For internal, anchor-only links it is mandatory to provide a label, therefore please use the extended form as a field with attributes, e.g.:\n\nlink:\nlabel = Some label\nurl = ";

pub const ANCHOR_LABEL_BEFORE: &'static str = "For internal, anchor-only links it is mandatory to provide a label, therefore please provide one for your link to '";

pub const ANCHOR_LABEL_MIDDLE: &'static str = "' like this:\n\nlink:\nlabel = Some label\nurl = ";

pub const MALFORMED_BEFORE: &'static str = "The url supplied for the link seems to be malformed (";

pub const MALFORMED_AFTER: &'static str = ").\nFull urls (e.g. \"https://example.com\") and internal references (e.g. \"#example\") are supported.\n";

pub const VERIFICATION_BEFORE: &'static str = "The verification attribute value '";

pub const VERIFICATION_AFTER: &'static str = "' is not recognized, allowed are 'rel-me' and 'rel-me-hidden'";

pub const ATTRIBUTE_BEFORE: &'static str = "The attribute '";

pub const ATTRIBUTE_AFTER: &'static str = "' is not recognized here (supported attributes are 'label', 'url' and 'verification'";

pub const ANCHOR_VERIFICATION_BEFORE: &'static str = "For internal, anchor-only links the verification option is not supported, please remove it from your link to '";

pub const ANCHOR_VERIFICATION_AFTER: &'static str = "'.";

/// The error for an anchor given as a plain value, which leaves no room
/// for the label it needs.
pub open spec fn anchor_value_message(value: Seq<char>) -> Seq<char> {
    ANCHOR_VALUE_BEFORE@ + value + "\n"@
}

/// The error for an anchor given without a label.
pub open spec fn anchor_label_message(url: Seq<char>) -> Seq<char> {
    ANCHOR_LABEL_BEFORE@ + url + ANCHOR_LABEL_MIDDLE@ + url + "\n"@
}

/// The error for a url that does not parse.
pub open spec fn malformed_url_message(error: Seq<char>) -> Seq<char> {
    MALFORMED_BEFORE@ + error + MALFORMED_AFTER@
}

/// The error for a verification value other than "rel-me" and
/// "rel-me-hidden".
pub open spec fn verification_message(value: Seq<char>) -> Seq<char> {
    VERIFICATION_BEFORE@ + value + VERIFICATION_AFTER@
}

/// The error for an attribute other than label, url and verification.
pub open spec fn attribute_message(key: Seq<char>) -> Seq<char> {
    ATTRIBUTE_BEFORE@ + key + ATTRIBUTE_AFTER@
}

/// The error for an anchor that asks for verification.
pub open spec fn anchor_verification_message(url: Seq<char>) -> Seq<char> {
    ANCHOR_VERIFICATION_BEFORE@ + url + ANCHOR_VERIFICATION_AFTER@
}

/// What the attributes read so far have set: hidden, label, rel-me, url,
/// and the errors they gave.
pub type LinkAttributes = (bool, Option<Seq<char>>, bool, Option<Seq<char>>, Seq<Seq<char>>);

/// The error about an attribute.
pub open spec fn attribute_error(attribute: ManifestAttribute, manifest_path: Seq<char>, message: Seq<char>) -> Seq<char> {
    element_error_message(manifest_path, attribute.line_number as nat, attribute.snippet@, message)
}

/// What one attribute does to what the attributes before it set. An
/// attribute without a value changes nothing; a later value of the same
/// attribute replaces an earlier one.
pub open spec fn link_attribute_step(state: LinkAttributes, attribute: ManifestAttribute, manifest_path: Seq<char>) -> LinkAttributes {
    let (hidden, label, rel_me, url, errors) = state;
    let key = attribute.key@;
    if key == "label"@ {
        match attribute.value {
            Some(v) => (hidden, Some(v@), rel_me, url, errors),
            None => state,
        }
    } else if key == "url"@ {
        match attribute.value {
            Some(v) => if starts_with(v@, "#"@) {
                (hidden, label, rel_me, Some(v@), errors)
            } else {
                match url_parse_error(v@) {
                    None => (hidden, label, rel_me, Some(v@), errors),
                    Some(e) => (hidden, label, rel_me, url, errors.push(
                        attribute_error(attribute, manifest_path, malformed_url_message(e)),
                    )),
                }
            },
            None => state,
        }
    } else if key == "verification"@ {
        match attribute.value {
            Some(v) => if v@ == "rel-me"@ {
                (false, label, true, url, errors)
            } else if v@ == "rel-me-hidden"@ {
                (true, label, true, url, errors)
            } else {
                (hidden, label, rel_me, url, errors.push(
                    attribute_error(attribute, manifest_path, verification_message(v@)),
                ))
            },
            None => state,
        }
    } else {
        (hidden, label, rel_me, url, errors.push(attribute_error(attribute, manifest_path, attribute_message(key))))
    }
}

/// What a sequence of attributes sets, read in order.
pub open spec fn link_attributes(attributes: Seq<ManifestAttribute>, manifest_path: Seq<char>) -> LinkAttributes
    decreases attributes.len(),
{
    if attributes.len() == 0 {
        (false, None, false, None, seq![])
    } else {
        link_attribute_step(link_attributes(attributes.drop_last(), manifest_path), attributes.last(), manifest_path)
    }
}

/// The link that a `link` element gives, if any, and the errors it gives.
pub open spec fn link_outcome(element: ManifestElement, manifest_path: Seq<char>) -> (Option<LinkView>, Seq<Seq<char>>) {
    let element_error = |m: Seq<char>|
        element_error_message(manifest_path, element.line_number as nat, element.snippet@, m);
    match element.field_value {
        Some(Some(v)) => if starts_with(v@, "#"@) {
            (None, seq![element_error(anchor_value_message(v@))])
        } else {
            match url_parse_error(v@) {
                None => (Some(LinkView::Full { hidden: false, label: spec_pretty_display(v@), rel_me: false, url: v@ }), seq![]),
                Some(e) => (None, seq![element_error(malformed_url_message(e))]),
            }
        },
        Some(None) => (None, seq![]),
        None => match element.field_attributes {
            Some(attributes) => {
                let (hidden, label, rel_me, url, errors) = link_attributes(attributes@, manifest_path);
                match url {
                    Some(u) => if starts_with(u, "#"@) {
                        if hidden || rel_me {
                            (None, errors.push(element_error(anchor_verification_message(u))))
                        } else {
                            match label {
                                Some(l) => (Some(LinkView::Anchor { id: u, label: l }), errors),
                                None => (None, errors.push(element_error(anchor_label_message(u)))),
                            }
                        }
                    } else {
                        let shown = match label {
                            Some(l) => l,
                            None => spec_pretty_display(u),
                        };
                        (Some(LinkView::Full { hidden, label: shown, rel_me, url: u }), errors)
                    },
                    None => (None, errors.push(element_error(LINK_URL_MISSING@))),
                }
            },
            None => (None, seq![element_error(LINK_SHAPE_ERROR@)]),
        },
    }
}

fn push_message(errors: &mut Vec<String>, message: String)
    ensures
        views(final(errors)@) == views(old(errors)@).push(message@),
{
    let ghost before = errors@;
    errors.push(message);
    assert(views(errors@) =~= views(before).push(message@));
}

fn concat3(a: &str, b: &str, c: &str) -> (s: String)
    ensures
        s@ == a@ + b@ + c@,
{
    let mut s = String::from_str(a);
    s.append(b);
    s.append(c);
    s
}

/// Reads the attributes of a `link` field in order, adding the errors
/// they give to `errors`; returns hidden, label, rel-me and url.
fn read_link_attributes(
    attributes: &Vec<ManifestAttribute>,
    manifest_path: &str,
    errors: &mut Vec<String>,
) -> (read: (bool, Option<String>, bool, Option<String>))
    ensures
        ({
            let (h, l, r, u, e) = link_attributes(attributes@, manifest_path@);
            &&& read.0 == h
            &&& opt_view(read.1) == l
            &&& read.2 == r
            &&& opt_view(read.3) == u
            &&& views(final(errors)@) == views(old(errors)@) + e
        }),
{
    let ghost start = views(errors@);
    let mut hidden = false;
    let mut label: Option<String> = None;
    let mut rel_me = false;
    let mut url: Option<String> = None;
    let mut i: usize = 0;
    assert(views(errors@) =~= start + Seq::<Seq<char>>::empty());
    while i < attributes.len()
        invariant
            i <= attributes.len(),
            ({
                let (h, l, r, u, e) = link_attributes(attributes@.take(i as int), manifest_path@);
                &&& hidden == h
                &&& opt_view(label) == l
                &&& rel_me == r
                &&& opt_view(url) == u
                &&& views(errors@) == start + e
            }),
        decreases attributes.len() - i,
    {
        let attribute = &attributes[i];
        let ghost before = link_attributes(attributes@.take(i as int), manifest_path@);
        let ghost errors_before = views(errors@);
        proof {
            assert(attributes@.take(i + 1).drop_last() =~= attributes@.take(i as int));
            assert(attributes@.take(i + 1).last() == attributes@[i as int]);
        }
        let key = attribute.key.as_str();
        if str_equal(key, "label") {
            if let Some(v) = &attribute.value {
                label = Some(v.clone());
            }
        } else if str_equal(key, "url") {
            if let Some(v) = &attribute.value {
                if starts_with_str(v.as_str(), "#") {
                    url = Some(v.clone());
                } else {
                    match check_url(v.as_str()) {
                        None => {
                            url = Some(v.clone());
                        },
                        Some(e) => {
                            let message = concat3(MALFORMED_BEFORE, e.as_str(), MALFORMED_AFTER);
                            push_message(errors, attribute_error_with_snippet(attribute, manifest_path, message.as_str()));
                        },
                    }
                }
            }
        } else if str_equal(key, "verification") {
            if let Some(v) = &attribute.value {
                if str_equal(v.as_str(), "rel-me") {
                    hidden = false;
                    rel_me = true;
                } else if str_equal(v.as_str(), "rel-me-hidden") {
                    hidden = true;
                    rel_me = true;
                } else {
                    let message = concat3(VERIFICATION_BEFORE, v.as_str(), VERIFICATION_AFTER);
                    push_message(errors, attribute_error_with_snippet(attribute, manifest_path, message.as_str()));
                }
            }
        } else {
            let message = concat3(ATTRIBUTE_BEFORE, key, ATTRIBUTE_AFTER);
            push_message(errors, attribute_error_with_snippet(attribute, manifest_path, message.as_str()));
        }
        proof {
            let after = link_attributes(attributes@.take(i + 1), manifest_path@);
            assert(after == link_attribute_step(before, attributes@[i as int], manifest_path@));
            assert(views(errors@) =~= start + after.4);
        }
        i = i + 1;
    }
    proof {
        assert(attributes@.take(attributes.len() as int) =~= attributes@);
    }
    (hidden, label, rel_me, url)
}

/// What reading an element as `link` does: whether the key is `link`, the
/// links afterwards, and the errors added.
pub open spec fn spec_read_link_option(element: ManifestElement, manifest_path: Seq<char>, links: Seq<LinkView>) -> (bool, Seq<LinkView>, Seq<Seq<char>>) {
    if element.key@ == "link"@ {
        let (link, errors) = link_outcome(element, manifest_path);
        (true, match link { Some(l) => links.push(l), None => links }, errors)
    } else {
        (false, links, seq![])
    }
}

/// Reads an element as the `link` option. A plain value must be a full
/// url that parses (an anchor such as "#about" needs a label, so the
/// extended form); the extended form takes `label`, `url` and
/// `verification` ("rel-me" or "rel-me-hidden") attributes, and an anchor
/// there takes a label and no verification. The link read is appended to
/// `links`; each problem adds an error. Returns whether the key is `link`;
/// where it is not, nothing changes.
pub fn read_link_option(
    element: &ManifestElement,
    manifest_path: &str,
    links: &mut Vec<Link>,
    errors: &mut Vec<String>,
) -> (handled: bool)
    ensures
        ({
            let (h, l, e) = spec_read_link_option(*element, manifest_path@, link_views(old(links)@));
            &&& handled == h
            &&& link_views(final(links)@) == l
            &&& views(final(errors)@) == views(old(errors)@) + e
        }),
{
    let ghost start_links = link_views(links@);
    let ghost start_errors = views(errors@);
    if !str_equal(element.key.as_str(), "link") {
        assert(views(errors@) =~= start_errors + Seq::<Seq<char>>::empty());
        return false;
    }
    let ghost outcome = link_outcome(*element, manifest_path@);
    match &element.field_value {
        Some(Some(v)) => {
            if starts_with_str(v.as_str(), "#") {
                let message = concat3(ANCHOR_VALUE_BEFORE, v.as_str(), "\n");
                push_element_error(errors, element, manifest_path, message.as_str());
            } else {
                match check_url(v.as_str()) {
                    None => {
                        links.push(Link::url(v.as_str()));
                    },
                    Some(e) => {
                        let message = concat3(MALFORMED_BEFORE, e.as_str(), MALFORMED_AFTER);
                        push_element_error(errors, element, manifest_path, message.as_str());
                    },
                }
            }
        },
        Some(None) => {},
        None => match &element.field_attributes {
            Some(attributes) => {
                let (hidden, label, rel_me, url) = read_link_attributes(attributes, manifest_path, errors);
                match url {
                    Some(u) => {
                        if starts_with_str(u.as_str(), "#") {
                            if hidden || rel_me {
                                let message = concat3(ANCHOR_VERIFICATION_BEFORE, u.as_str(), ANCHOR_VERIFICATION_AFTER);
                                push_element_error(errors, element, manifest_path, message.as_str());
                            } else {
                                match label {
                                    Some(l) => {
                                        links.push(Link::anchor(u, l));
                                    },
                                    None => {
                                        let mut message = concat3(ANCHOR_LABEL_BEFORE, u.as_str(), ANCHOR_LABEL_MIDDLE);
                                        message.append(u.as_str());
                                        message.append("\n");
                                        push_element_error(errors, element, manifest_path, message.as_str());
                                    },
                                }
                            }
                        } else {
                            links.push(Link::full(hidden, label, rel_me, u));
                        }
                    },
                    None => {
                        push_element_error(errors, element, manifest_path, LINK_URL_MISSING);
                    },
                }
            },
            None => {
                push_element_error(errors, element, manifest_path, LINK_SHAPE_ERROR);
            },
        },
    }
    proof {
        assert(link_views(links@) =~= match outcome.0 {
            Some(l) => start_links.push(l),
            None => start_links,
        });
        assert(views(errors@) =~= start_errors + outcome.1);
    }
    true
}

} // verus!
