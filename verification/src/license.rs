//! The domain model — one license record and its nested parts — and the
//! decoders that read it out of a parsed JSON document.
//!
//! Decoding is all or nothing: a record is produced exactly when every
//! required field is present with its required shape, and the two optional
//! note-like fields (`superseded_by`, `note`) read an absent field or an
//! explicit `null` as absence.

use crate::json::arr_view;
use crate::json::spec_arr_field;
use crate::json::spec_lookup;
use crate::json::spec_opt_str_field;
use crate::json::spec_str_field;
use crate::json::arr_field;
use crate::json::opt_str_field;
use crate::json::str_field;
use crate::json::Json;
use crate::json::JsonView;
use vstd::prelude::*;

verus! {

/// One license record as the service reports it.
#[derive(Debug)]
pub struct License {
    pub id: String,
    pub identifiers: Vec<Identifier>,
    pub keywords: Vec<String>,
    pub links: Vec<Link>,
    pub name: String,
    pub other_names: Vec<OtherName>,
    pub superseded_by: Option<String>,
    pub text: Vec<Text>,
}

/// One identifier under a naming scheme (for instance an SPDX id).
#[derive(Debug)]
pub struct Identifier {
    pub identifier: String,
    pub scheme: String,
}

/// One related location, with an optional note.
#[derive(Debug)]
pub struct Link {
    pub note: Option<String>,
    pub url: String,
}

/// One alternate name of the license, with an optional note.
#[derive(Debug)]
pub struct OtherName {
    pub name: String,
    pub note: Option<String>,
}

/// One canonical text representation of the license.
#[derive(Debug)]
pub struct Text {
    pub media_type: String,
    pub title: String,
    pub url: String,
}

/// The mathematical shape of a `License`.
pub struct LicenseView {
    pub id: Seq<char>,
    pub identifiers: Seq<IdentifierView>,
    pub keywords: Seq<Seq<char>>,
    pub links: Seq<LinkView>,
    pub name: Seq<char>,
    pub other_names: Seq<OtherNameView>,
    pub superseded_by: Option<Seq<char>>,
    pub text: Seq<TextView>,
}

pub struct IdentifierView {
    pub identifier: Seq<char>,
    pub scheme: Seq<char>,
}

pub struct LinkView {
    pub note: Option<Seq<char>>,
    pub url: Seq<char>,
}

pub struct OtherNameView {
    pub name: Seq<char>,
    pub note: Option<Seq<char>>,
}

pub struct TextView {
    pub media_type: Seq<char>,
    pub title: Seq<char>,
    pub url: Seq<char>,
}

impl DeepView for License {
    type V = LicenseView;

    open spec fn deep_view(&self) -> LicenseView {
        LicenseView {
            id: self.id@,
            identifiers: self.identifiers.deep_view(),
            keywords: self.keywords.deep_view(),
            links: self.links.deep_view(),
            name: self.name@,
            other_names: self.other_names.deep_view(),
            superseded_by: self.superseded_by.deep_view(),
            text: self.text.deep_view(),
        }
    }
}

impl DeepView for Identifier {
    type V = IdentifierView;

    open spec fn deep_view(&self) -> IdentifierView {
        IdentifierView { identifier: self.identifier@, scheme: self.scheme@ }
    }
}

impl DeepView for Link {
    type V = LinkView;

    open spec fn deep_view(&self) -> LinkView {
        LinkView { note: self.note.deep_view(), url: self.url@ }
    }
}

impl DeepView for OtherName {
    type V = OtherNameView;

    open spec fn deep_view(&self) -> OtherNameView {
        OtherNameView { name: self.name@, note: self.note.deep_view() }
    }
}

impl DeepView for Text {
    type V = TextView;

    open spec fn deep_view(&self) -> TextView {
        TextView { media_type: self.media_type@, title: self.title@, url: self.url@ }
    }
}

/// What one element of `identifiers` decodes to.
pub open spec fn spec_identifier(j: JsonView) -> Option<IdentifierView> {
    match j {
        JsonView::Obj(fs) => {
            let identifier = spec_str_field(fs, "identifier"@);
            let scheme = spec_str_field(fs, "scheme"@);
            if identifier is Some && scheme is Some {
                Some(IdentifierView { identifier: identifier.unwrap(), scheme: scheme.unwrap() })
            } else {
                None
            }
        },
        _ => None,
    }
}

/// What one element of `links` decodes to.
pub open spec fn spec_link(j: JsonView) -> Option<LinkView> {
    match j {
        JsonView::Obj(fs) => {
            let note = spec_opt_str_field(fs, "note"@);
            let url = spec_str_field(fs, "url"@);
            if note is Some && url is Some {
                Some(LinkView { note: note.unwrap(), url: url.unwrap() })
            } else {
                None
            }
        },
        _ => None,
    }
}

/// What one element of `other_names` decodes to.
pub open spec fn spec_other_name(j: JsonView) -> Option<OtherNameView> {
    match j {
        JsonView::Obj(fs) => {
            let name = spec_str_field(fs, "name"@);
            let note = spec_opt_str_field(fs, "note"@);
            if name is Some && note is Some {
                Some(OtherNameView { name: name.unwrap(), note: note.unwrap() })
            } else {
                None
            }
        },
        _ => None,
    }
}

/// What one element of `text` decodes to.
pub open spec fn spec_text(j: JsonView) -> Option<TextView> {
    match j {
        JsonView::Obj(fs) => {
            let media_type = spec_str_field(fs, "media_type"@);
            let title = spec_str_field(fs, "title"@);
            let url = spec_str_field(fs, "url"@);
            if media_type is Some && title is Some && url is Some {
                Some(
                    TextView {
                        media_type: media_type.unwrap(),
                        title: title.unwrap(),
                        url: url.unwrap(),
                    },
                )
            } else {
                None
            }
        },
        _ => None,
    }
}

/// What one element of `keywords` decodes to: a bare string.
pub open spec fn spec_keyword(j: JsonView) -> Option<Seq<char>> {
    match j {
        JsonView::Str(s) => Some(s),
        _ => None,
    }
}

/// Elementwise decoding of `identifiers`, all or nothing.
pub open spec fn spec_identifier_list(a: Seq<JsonView>) -> Option<Seq<IdentifierView>> {
    if forall|i: int| 0 <= i < a.len() ==> (#[trigger] spec_identifier(a[i])) is Some {
        Some(Seq::new(a.len(), |i: int| spec_identifier(a[i]).unwrap()))
    } else {
        None
    }
}

/// Elementwise decoding of `keywords`, all or nothing.
pub open spec fn spec_keyword_list(a: Seq<JsonView>) -> Option<Seq<Seq<char>>> {
    if forall|i: int| 0 <= i < a.len() ==> (#[trigger] spec_keyword(a[i])) is Some {
        Some(Seq::new(a.len(), |i: int| spec_keyword(a[i]).unwrap()))
    } else {
        None
    }
}

/// Elementwise decoding of `links`, all or nothing.
pub open spec fn spec_link_list(a: Seq<JsonView>) -> Option<Seq<LinkView>> {
    if forall|i: int| 0 <= i < a.len() ==> (#[trigger] spec_link(a[i])) is Some {
        Some(Seq::new(a.len(), |i: int| spec_link(a[i]).unwrap()))
    } else {
        None
    }
}

/// Elementwise decoding of `other_names`, all or nothing.
pub open spec fn spec_other_name_list(a: Seq<JsonView>) -> Option<Seq<OtherNameView>> {
    if forall|i: int| 0 <= i < a.len() ==> (#[trigger] spec_other_name(a[i])) is Some {
        Some(Seq::new(a.len(), |i: int| spec_other_name(a[i]).unwrap()))
    } else {
        None
    }
}

/// Elementwise decoding of `text`, all or nothing.
pub open spec fn spec_text_list(a: Seq<JsonView>) -> Option<Seq<TextView>> {
    if forall|i: int| 0 <= i < a.len() ==> (#[trigger] spec_text(a[i])) is Some {
        Some(Seq::new(a.len(), |i: int| spec_text(a[i]).unwrap()))
    } else {
        None
    }
}

/// What a license object's field list decodes to.
pub open spec fn spec_license_fields(fs: Seq<(Seq<char>, JsonView)>) -> Option<LicenseView> {
    let id = spec_str_field(fs, "id"@);
    let identifiers = match spec_arr_field(fs, "identifiers"@) {
        Some(a) => spec_identifier_list(a),
        None => None,
    };
    let keywords = match spec_arr_field(fs, "keywords"@) {
        Some(a) => spec_keyword_list(a),
        None => None,
    };
    let links = match spec_arr_field(fs, "links"@) {
        Some(a) => spec_link_list(a),
        None => None,
    };
    let name = spec_str_field(fs, "name"@);
    let other_names = match spec_arr_field(fs, "other_names"@) {
        Some(a) => spec_other_name_list(a),
        None => None,
    };
    let superseded_by = spec_opt_str_field(fs, "superseded_by"@);
    let text = match spec_arr_field(fs, "text"@) {
        Some(a) => spec_text_list(a),
        None => None,
    };
    if id is Some && identifiers is Some && keywords is Some && links is Some && name is Some
        && other_names is Some && superseded_by is Some && text is Some {
        Some(
            LicenseView {
                id: id.unwrap(),
                identifiers: identifiers.unwrap(),
                keywords: keywords.unwrap(),
                links: links.unwrap(),
                name: name.unwrap(),
                other_names: other_names.unwrap(),
                superseded_by: superseded_by.unwrap(),
                text: text.unwrap(),
            },
        )
    } else {
        None
    }
}

/// What one JSON document decodes to as a single license record: it must be
/// an object carrying every required field in its required shape.
pub open spec fn spec_license(j: JsonView) -> Option<LicenseView> {
    match j {
        JsonView::Obj(fs) => spec_license_fields(fs),
        _ => None,
    }
}

/// Elementwise decoding of a license array, all or nothing.
pub open spec fn spec_license_list(a: Seq<JsonView>) -> Option<Seq<LicenseView>> {
    if forall|i: int| 0 <= i < a.len() ==> (#[trigger] spec_license(a[i])) is Some {
        Some(Seq::new(a.len(), |i: int| spec_license(a[i]).unwrap()))
    } else {
        None
    }
}

/// What one JSON document decodes to as a license list: it must be an array
/// of license objects.
pub open spec fn spec_licenses(j: JsonView) -> Option<Seq<LicenseView>> {
    match j {
        JsonView::Arr(a) => spec_license_list(a),
        _ => None,
    }
}

/// Decoding preserves the presence of the optional `superseded_by` field:
/// a record without it (or with an explicit `null`) decodes to an absent
/// value, and a record carrying a string decodes to exactly that string.
pub proof fn lemma_superseded_by_presence(fs: Seq<(Seq<char>, JsonView)>, l: LicenseView)
    requires
        spec_license_fields(fs) == Some(l),
    ensures
        spec_lookup(fs, "superseded_by"@) is None ==> l.superseded_by is None,
        spec_lookup(fs, "superseded_by"@) == Some(JsonView::Null) ==> l.superseded_by is None,
        spec_lookup(fs, "superseded_by"@) matches Some(JsonView::Str(s)) ==> l.superseded_by
            == Some(s),
{
}

/// Decodes one element of `identifiers`.
fn decode_identifier(j: &Json) -> (r: Option<Identifier>)
    ensures
        match r {
            Some(x) => spec_identifier(j.deep_view()) == Some(x.deep_view()),
            None => spec_identifier(j.deep_view()) is None,
        },
{
    match j {
        Json::Obj(fields) => {
            let identifier = str_field(fields, &String::from_str("identifier"));
            let scheme = str_field(fields, &String::from_str("scheme"));
            match (identifier, scheme) {
                (Some(identifier), Some(scheme)) => Some(Identifier { identifier, scheme }),
                _ => None,
            }
        },
        _ => None,
    }
}

/// Decodes one element of `links`.
fn decode_link(j: &Json) -> (r: Option<Link>)
    ensures
        match r {
            Some(x) => spec_link(j.deep_view()) == Some(x.deep_view()),
            None => spec_link(j.deep_view()) is None,
        },
{
    match j {
        Json::Obj(fields) => {
            let note = opt_str_field(fields, &String::from_str("note"));
            let url = str_field(fields, &String::from_str("url"));
            match (note, url) {
                (Some(note), Some(url)) => Some(Link { note, url }),
                _ => None,
            }
        },
        _ => None,
    }
}

/// Decodes one element of `other_names`.
fn decode_other_name(j: &Json) -> (r: Option<OtherName>)
    ensures
        match r {
            Some(x) => spec_other_name(j.deep_view()) == Some(x.deep_view()),
            None => spec_other_name(j.deep_view()) is None,
        },
{
    match j {
        Json::Obj(fields) => {
            let name = str_field(fields, &String::from_str("name"));
            let note = opt_str_field(fields, &String::from_str("note"));
            match (name, note) {
                (Some(name), Some(note)) => Some(OtherName { name, note }),
                _ => None,
            }
        },
        _ => None,
    }
}

/// Decodes one element of `text`.
fn decode_text(j: &Json) -> (r: Option<Text>)
    ensures
        match r {
            Some(x) => spec_text(j.deep_view()) == Some(x.deep_view()),
            None => spec_text(j.deep_view()) is None,
        },
{
    match j {
        Json::Obj(fields) => {
            let media_type = str_field(fields, &String::from_str("media_type"));
            let title = str_field(fields, &String::from_str("title"));
            let url = str_field(fields, &String::from_str("url"));
            match (media_type, title, url) {
                (Some(media_type), Some(title), Some(url)) => Some(
                    Text { media_type, title, url },
                ),
                _ => None,
            }
        },
        _ => None,
    }
}

/// Decodes the elements of `identifiers`, all or nothing.
fn decode_identifier_list(items: &Vec<Json>) -> (r: Option<Vec<Identifier>>)
    ensures
        match r {
            Some(v) => spec_identifier_list(arr_view(items@)) == Some(v.deep_view()),
            None => spec_identifier_list(arr_view(items@)) is None,
        },
{
    let ghost a = arr_view(items@);
    let mut out: Vec<Identifier> = Vec::new();
    let mut i: usize = 0;
    while i < items.len()
        invariant
            0 <= i <= items@.len(),
            a == arr_view(items@),
            a.len() == items@.len(),
            out@.len() == i,
            forall|k: int|
                0 <= k < i ==> (#[trigger] spec_identifier(a[k])) is Some && out.deep_view()[k]
                    == spec_identifier(a[k]).unwrap(),
        decreases items@.len() - i,
    {
        match decode_identifier(&items[i]) {
            Some(x) => out.push(x),
            None => {
                proof {
                    assert(spec_identifier(a[i as int]) is None);
                }
                return None;
            },
        }
        i += 1;
    }
    proof {
        assert(out.deep_view() =~= Seq::new(a.len(), |k: int| spec_identifier(a[k]).unwrap()));
    }
    Some(out)
}

/// Decodes one element of `keywords`.
fn decode_keyword(j: &Json) -> (r: Option<String>)
    ensures
        match r {
            Some(x) => spec_keyword(j.deep_view()) == Some(x@),
            None => spec_keyword(j.deep_view()) is None,
        },
{
    match j {
        Json::Str(s) => Some(s.clone()),
        _ => None,
    }
}

/// Decodes the elements of `keywords`, all or nothing.
fn decode_keyword_list(items: &Vec<Json>) -> (r: Option<Vec<String>>)
    ensures
        match r {
            Some(v) => spec_keyword_list(arr_view(items@)) == Some(v.deep_view()),
            None => spec_keyword_list(arr_view(items@)) is None,
        },
{
    let ghost a = arr_view(items@);
    let mut out: Vec<String> = Vec::new();
    let mut i: usize = 0;
    while i < items.len()
        invariant
            0 <= i <= items@.len(),
            a == arr_view(items@),
            a.len() == items@.len(),
            out@.len() == i,
            forall|k: int|
                0 <= k < i ==> (#[trigger] spec_keyword(a[k])) is Some && out.deep_view()[k]
                    == spec_keyword(a[k]).unwrap(),
        decreases items@.len() - i,
    {
        match decode_keyword(&items[i]) {
            Some(x) => out.push(x),
            None => {
                proof {
                    assert(spec_keyword(a[i as int]) is None);
                }
                return None;
            },
        }
        i += 1;
    }
    proof {
        assert(out.deep_view() =~= Seq::new(a.len(), |k: int| spec_keyword(a[k]).unwrap()));
    }
    Some(out)
}

/// Decodes the elements of `links`, all or nothing.
fn decode_link_list(items: &Vec<Json>) -> (r: Option<Vec<Link>>)
    ensures
        match r {
            Some(v) => spec_link_list(arr_view(items@)) == Some(v.deep_view()),
            None => spec_link_list(arr_view(items@)) is None,
        },
{
    let ghost a = arr_view(items@);
    let mut out: Vec<Link> = Vec::new();
    let mut i: usize = 0;
    while i < items.len()
        invariant
            0 <= i <= items@.len(),
            a == arr_view(items@),
            a.len() == items@.len(),
            out@.len() == i,
            forall|k: int|
                0 <= k < i ==> (#[trigger] spec_link(a[k])) is Some && out.deep_view()[k]
                    == spec_link(a[k]).unwrap(),
        decreases items@.len() - i,
    {
        match decode_link(&items[i]) {
            Some(x) => out.push(x),
            None => {
                proof {
                    assert(spec_link(a[i as int]) is None);
                }
                return None;
            },
        }
        i += 1;
    }
    proof {
        assert(out.deep_view() =~= Seq::new(a.len(), |k: int| spec_link(a[k]).unwrap()));
    }
    Some(out)
}

/// Decodes the elements of `other_names`, all or nothing.
fn decode_other_name_list(items: &Vec<Json>) -> (r: Option<Vec<OtherName>>)
    ensures
        match r {
            Some(v) => spec_other_name_list(arr_view(items@)) == Some(v.deep_view()),
            None => spec_other_name_list(arr_view(items@)) is None,
        },
{
    let ghost a = arr_view(items@);
    let mut out: Vec<OtherName> = Vec::new();
    let mut i: usize = 0;
    while i < items.len()
        invariant
            0 <= i <= items@.len(),
            a == arr_view(items@),
            a.len() == items@.len(),
            out@.len() == i,
            forall|k: int|
                0 <= k < i ==> (#[trigger] spec_other_name(a[k])) is Some && out.deep_view()[k]
                    == spec_other_name(a[k]).unwrap(),
        decreases items@.len() - i,
    {
        match decode_other_name(&items[i]) {
            Some(x) => out.push(x),
            None => {
                proof {
                    assert(spec_other_name(a[i as int]) is None);
                }
                return None;
            },
        }
        i += 1;
    }
    proof {
        assert(out.deep_view() =~= Seq::new(a.len(), |k: int| spec_other_name(a[k]).unwrap()));
    }
    Some(out)
}

/// Decodes the elements of `text`, all or nothing.
fn decode_text_list(items: &Vec<Json>) -> (r: Option<Vec<Text>>)
    ensures
        match r {
            Some(v) => spec_text_list(arr_view(items@)) == Some(v.deep_view()),
            None => spec_text_list(arr_view(items@)) is None,
        },
{
    let ghost a = arr_view(items@);
    let mut out: Vec<Text> = Vec::new();
    let mut i: usize = 0;
    while i < items.len()
        invariant
            0 <= i <= items@.len(),
            a == arr_view(items@),
            a.len() == items@.len(),
            out@.len() == i,
            forall|k: int|
                0 <= k < i ==> (#[trigger] spec_text(a[k])) is Some && out.deep_view()[k]
                    == spec_text(a[k]).unwrap(),
        decreases items@.len() - i,
    {
        match decode_text(&items[i]) {
            Some(x) => out.push(x),
            None => {
                proof {
                    assert(spec_text(a[i as int]) is None);
                }
                return None;
            },
        }
        i += 1;
    }
    proof {
        assert(out.deep_view() =~= Seq::new(a.len(), |k: int| spec_text(a[k]).unwrap()));
    }
    Some(out)
}

/// Decodes one parsed JSON document as a single license record.
pub fn decode_license(j: &Json) -> (r: Option<License>)
    ensures
        match r {
            Some(l) => spec_license(j.deep_view()) == Some(l.deep_view()),
            None => spec_license(j.deep_view()) is None,
        },
{
    match j {
        Json::Obj(fields) => {
            let id = str_field(fields, &String::from_str("id"));
            let identifiers = match arr_field(fields, &String::from_str("identifiers")) {
                Some(items) => decode_identifier_list(items),
                None => None,
            };
            let keywords = match arr_field(fields, &String::from_str("keywords")) {
                Some(items) => decode_keyword_list(items),
                None => None,
            };
            let links = match arr_field(fields, &String::from_str("links")) {
                Some(items) => decode_link_list(items),
                None => None,
            };
            let name = str_field(fields, &String::from_str("name"));
            let other_names = match arr_field(fields, &String::from_str("other_names")) {
                Some(items) => decode_other_name_list(items),
                None => None,
            };
            let superseded_by = opt_str_field(fields, &String::from_str("superseded_by"));
            let text = match arr_field(fields, &String::from_str("text")) {
                Some(items) => decode_text_list(items),
                None => None,
            };
            match (id, identifiers, keywords, links, name, other_names, superseded_by, text) {
                (
                    Some(id),
                    Some(identifiers),
                    Some(keywords),
                    Some(links),
                    Some(name),
                    Some(other_names),
                    Some(superseded_by),
                    Some(text),
                ) => Some(
                    License {
                        id,
                        identifiers,
                        keywords,
                        links,
                        name,
                        other_names,
                        superseded_by,
                        text,
                    },
                ),
                _ => None,
            }
        },
        _ => None,
    }
}

/// Decodes one parsed JSON document as a list of license records.
pub fn decode_licenses(j: &Json) -> (r: Option<Vec<License>>)
    ensures
        match r {
            Some(v) => spec_licenses(j.deep_view()) == Some(v.deep_view()),
            None => spec_licenses(j.deep_view()) is None,
        },
{
    match j {
        Json::Arr(items) => {
            let ghost a = arr_view(items@);
            let mut out: Vec<License> = Vec::new();
            let mut i: usize = 0;
            while i < items.len()
                invariant
                    0 <= i <= items@.len(),
                    a == arr_view(items@),
                    a.len() == items@.len(),
                    j.deep_view() == JsonView::Arr(a),
                    out@.len() == i,
                    forall|k: int|
                        0 <= k < i ==> (#[trigger] spec_license(a[k])) is Some && out.deep_view()[k]
                            == spec_license(a[k]).unwrap(),
                decreases items@.len() - i,
            {
                match decode_license(&items[i]) {
                    Some(x) => out.push(x),
                    None => {
                        proof {
                            assert(spec_license(a[i as int]) is None);
                        }
                        return None;
                    },
                }
                i += 1;
            }
            proof {
                assert(out.deep_view() =~= Seq::new(
                    a.len(),
                    |k: int| spec_license(a[k]).unwrap(),
                ));
            }
            Some(out)
        },
        _ => None,
    }
}

} // verus!
