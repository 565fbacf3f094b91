//! The JSON text of an index record.
//!
//! Strings are written by the JSON encoder of `rustc_serialize`; the frame of
//! arrays and objects around them is put together here, without any white
//! space, every field present and in a fixed order. A record is written if
//! and only if the encoder writes each of its texts.

use vstd::prelude::*;
use crate::error::{ErrorKind, ErrorModel, VendorError, plain_error};
use crate::record::{
    FeatureModel, FeatureTable, RecordDependencyModel, RecordModel, RegistryDependency,
    RegistryPackage, record_dependency_models,
};
use crate::text::{join, joined, texts_of};

verus! {

/// The error of `rustc_serialize`'s JSON encoder, `json::EncoderError`:
/// carried through as it is, nothing is known of what it holds.
#[verifier::external_type_specification]
#[verifier::external_body]
pub struct ExEncoderError(rustc_serialize::json::EncoderError);

/// What `rustc_serialize::json::encode` gives for a text: the JSON string,
/// which is the text between double quotes, with its quotes, backslashes and
/// control characters escaped; or `None` where the encoder gives an error.
pub uninterp spec fn json_string(text: Seq<char>) -> Option<Seq<char>>;

/// The encoder writes this text.
pub open spec fn encodable(text: Seq<char>) -> bool {
    json_string(text) is Some
}

/// The JSON string of a text that the encoder writes.
pub open spec fn json_text(text: Seq<char>) -> Seq<char>
    recommends
        encodable(text),
{
    json_string(text)->0
}

/// The encoder writes every text of a list.
pub open spec fn all_encodable(items: Seq<Seq<char>>) -> bool {
    forall|i: int| 0 <= i < items.len() ==> encodable(#[trigger] items[i])
}

/// The encoder writes a text that may be absent.
pub open spec fn optional_encodable(value: Option<Seq<char>>) -> bool {
    value matches Some(text) ==> encodable(text)
}

/// The encoder writes every text of a dependency and the names of its fields.
pub open spec fn dependency_encodable(dependency: RecordDependencyModel) -> bool {
    &&& encodable("name"@)
    &&& encodable("req"@)
    &&& encodable("features"@)
    &&& encodable("optional"@)
    &&& encodable("default_features"@)
    &&& encodable("target"@)
    &&& encodable("kind"@)
    &&& encodable(dependency.name)
    &&& encodable(dependency.req)
    &&& all_encodable(dependency.features)
    &&& optional_encodable(dependency.target)
    &&& encodable(dependency.kind)
}

/// The encoder writes every name and every list of a feature table.
pub open spec fn features_encodable(features: Seq<FeatureModel>) -> bool {
    forall|i: int|
        0 <= i < features.len() ==> encodable((#[trigger] features[i]).name) && all_encodable(
            features[i].enables,
        )
}

/// The encoder writes every dependency of a list.
pub open spec fn dependencies_encodable(dependencies: Seq<RecordDependencyModel>) -> bool {
    forall|i: int|
        0 <= i < dependencies.len() ==> dependency_encodable(#[trigger] dependencies[i])
}

/// The encoder writes every text of a record and the names of its fields.
pub open spec fn record_encodable(record: RecordModel) -> bool {
    &&& encodable("name"@)
    &&& encodable("vers"@)
    &&& encodable("deps"@)
    &&& encodable("features"@)
    &&& encodable("cksum"@)
    &&& encodable("yanked"@)
    &&& encodable(record.name)
    &&& encodable(record.vers)
    &&& dependencies_encodable(record.deps)
    &&& features_encodable(record.features)
    &&& encodable(record.cksum)
}

/// A member of an object: the encoded key, a colon, the value.
pub open spec fn member_text(key: Seq<char>, value: Seq<char>) -> Seq<char> {
    key + ":"@ + value
}

/// An array of values that are JSON already.
pub open spec fn array_text(items: Seq<Seq<char>>) -> Seq<char> {
    "["@ + joined(items, ","@) + "]"@
}

/// An object of members that are JSON already.
pub open spec fn object_text(members: Seq<Seq<char>>) -> Seq<char> {
    "{"@ + joined(members, ","@) + "}"@
}

/// A truth value.
pub open spec fn bool_text(value: bool) -> Seq<char> {
    if value {
        "true"@
    } else {
        "false"@
    }
}

/// A text that may be absent: `null` where it is.
pub open spec fn optional_json(value: Option<Seq<char>>) -> Seq<char> {
    match value {
        Some(text) => json_text(text),
        None => "null"@,
    }
}

/// A truth value that may be absent: `null` where it is.
pub open spec fn optional_bool_json(value: Option<bool>) -> Seq<char> {
    match value {
        Some(flag) => bool_text(flag),
        None => "null"@,
    }
}

/// An array of strings.
pub open spec fn list_text(items: Seq<Seq<char>>) -> Seq<char> {
    array_text(Seq::new(items.len(), |i: int| json_text(items[i])))
}

/// A field of a record: the name of the field as a JSON string, then its value.
pub open spec fn field_text(name: Seq<char>, value: Seq<char>) -> Seq<char> {
    member_text(json_text(name), value)
}

/// The JSON object of a dependency.
pub open spec fn dependency_text(dependency: RecordDependencyModel) -> Seq<char> {
    object_text(
        seq![
            field_text("name"@, json_text(dependency.name)),
            field_text("req"@, json_text(dependency.req)),
            field_text("features"@, list_text(dependency.features)),
            field_text("optional"@, bool_text(dependency.optional)),
            field_text("default_features"@, bool_text(dependency.default_features)),
            field_text("target"@, optional_json(dependency.target)),
            field_text("kind"@, json_text(dependency.kind)),
        ],
    )
}

/// The JSON object of a feature table: each name with the list it switches on.
pub open spec fn features_text(features: Seq<FeatureModel>) -> Seq<char> {
    object_text(
        Seq::new(
            features.len(),
            |i: int| field_text(features[i].name, list_text(features[i].enables)),
        ),
    )
}

/// The JSON array of the dependencies of a record.
pub open spec fn dependencies_text(dependencies: Seq<RecordDependencyModel>) -> Seq<char> {
    array_text(Seq::new(dependencies.len(), |i: int| dependency_text(dependencies[i])))
}

/// The JSON object of a record, on one line.
pub open spec fn record_text(record: RecordModel) -> Seq<char> {
    object_text(
        seq![
            field_text("name"@, json_text(record.name)),
            field_text("vers"@, json_text(record.vers)),
            field_text("deps"@, dependencies_text(record.deps)),
            field_text("features"@, features_text(record.features)),
            field_text("cksum"@, json_text(record.cksum)),
            field_text("yanked"@, optional_bool_json(record.yanked)),
        ],
    )
}

/// The error for a text that the encoder did not write.
pub open spec fn encoding_failure() -> ErrorModel {
    plain_error(ErrorKind::SerializationFailure, "the JSON encoder gave up"@)
}

/// Calls `rustc_serialize::json::encode` on a string slice. Trusted: whether
/// it succeeds, and with which JSON string, is a function of `text` alone.
#[verifier::external_body]
fn encode_text(text: &str) -> (encoded: Result<String, rustc_serialize::json::EncoderError>)
    ensures
        match encoded {
            Ok(json) => json_string(text@) == Some(json@),
            Err(_) => json_string(text@) is None,
        },
{
    rustc_serialize::json::encode(&text)
}

/// Writes a text as a JSON string.
pub fn quote(text: &str) -> (quoted: Result<String, VendorError>)
    ensures
        match quoted {
            Ok(json) => encodable(text@) && json@ == json_text(text@),
            Err(error) => !encodable(text@) && error@ == encoding_failure(),
        },
{
    match encode_text(text) {
        Ok(json) => Ok(json),
        Err(_) => Err(
            VendorError::new(ErrorKind::SerializationFailure, "the JSON encoder gave up".to_owned()),
        ),
    }
}

/// Puts an encoded key and a value together as a member of an object.
pub fn member(key: &str, value: &str) -> (text: String)
    ensures
        text@ == member_text(key@, value@),
{
    let mut text: String = key.to_owned();
    text.append(":");
    text.append(value);
    text
}

/// Frames values as an array.
pub fn array(items: &Vec<String>) -> (text: String)
    ensures
        text@ == array_text(texts_of(items@)),
{
    let mut text: String = "[".to_owned();
    let inner: String = join(items, ",");
    text.append(inner.as_str());
    text.append("]");
    text
}

/// Frames members as an object.
pub fn object(members: &Vec<String>) -> (text: String)
    ensures
        text@ == object_text(texts_of(members@)),
{
    let mut text: String = "{".to_owned();
    let inner: String = join(members, ",");
    text.append(inner.as_str());
    text.append("}");
    text
}

/// Writes a truth value.
pub fn boolean(value: bool) -> (text: String)
    ensures
        text@ == bool_text(value),
{
    if value {
        "true".to_owned()
    } else {
        "false".to_owned()
    }
}

/// Writes a field whose value is JSON already.
fn field(name: &str, value: &str) -> (text: Result<String, VendorError>)
    ensures
        match text {
            Ok(json) => encodable(name@) && json@ == field_text(name@, value@),
            Err(error) => !encodable(name@) && error@ == encoding_failure(),
        },
{
    let key: String = quote(name)?;
    Ok(member(key.as_str(), value))
}

/// Writes a field whose value is a string.
fn text_field(name: &str, value: &str) -> (text: Result<String, VendorError>)
    ensures
        match text {
            Ok(json) => encodable(name@) && encodable(value@) && json@ == field_text(
                name@,
                json_text(value@),
            ),
            Err(error) => !(encodable(name@) && encodable(value@)) && error@
                == encoding_failure(),
        },
{
    let quoted: String = quote(value)?;
    field(name, quoted.as_str())
}

/// Writes a list of strings as an array.
pub fn encode_list(items: &Vec<String>) -> (text: Result<String, VendorError>)
    ensures
        match text {
            Ok(json) => all_encodable(texts_of(items@)) && json@ == list_text(texts_of(items@)),
            Err(error) => !all_encodable(texts_of(items@)) && error@ == encoding_failure(),
        },
{
    let mut quoted: Vec<String> = Vec::new();
    let mut i: usize = 0;
    while i < items.len()
        invariant
            i <= items.len(),
            quoted.len() == i,
            forall|k: int| 0 <= k < i ==> encodable(items@[k]@),
            forall|k: int| 0 <= k < i ==> quoted@[k]@ == json_text(items@[k]@),
        decreases items.len() - i,
    {
        match quote(items[i].as_str()) {
            Ok(item) => quoted.push(item),
            Err(error) => {
                assert(!encodable(texts_of(items@)[i as int]));
                return Err(error);
            },
        }
        i += 1;
    }
    assert forall|k: int| 0 <= k < texts_of(items@).len() implies encodable(
        #[trigger] texts_of(items@)[k],
    ) by {
        assert(encodable(items@[k]@));
    }
    assert(texts_of(quoted@) =~= Seq::new(
        texts_of(items@).len(),
        |k: int| json_text(texts_of(items@)[k]),
    ));
    Ok(array(&quoted))
}

/// Writes the object of a dependency.
pub fn encode_dependency(dependency: &RegistryDependency) -> (text: Result<String, VendorError>)
    ensures
        match text {
            Ok(json) => dependency_encodable(dependency@) && json@ == dependency_text(
                dependency@,
            ),
            Err(error) => !dependency_encodable(dependency@) && error@ == encoding_failure(),
        },
{
    let features: String = encode_list(&dependency.features)?;
    let target: String = match &dependency.target {
        Some(platform) => quote(platform.as_str())?,
        None => "null".to_owned(),
    };
    let mut members: Vec<String> = Vec::new();
    members.push(text_field("name", dependency.name.as_str())?);
    members.push(text_field("req", dependency.req.as_str())?);
    members.push(field("features", features.as_str())?);
    members.push(field("optional", boolean(dependency.optional).as_str())?);
    members.push(field("default_features", boolean(dependency.default_features).as_str())?);
    members.push(field("target", target.as_str())?);
    members.push(text_field("kind", dependency.kind.as_str())?);
    assert(texts_of(members@) =~= seq![
        field_text("name"@, json_text(dependency@.name)),
        field_text("req"@, json_text(dependency@.req)),
        field_text("features"@, list_text(dependency@.features)),
        field_text("optional"@, bool_text(dependency@.optional)),
        field_text("default_features"@, bool_text(dependency@.default_features)),
        field_text("target"@, optional_json(dependency@.target)),
        field_text("kind"@, json_text(dependency@.kind)),
    ]);
    Ok(object(&members))
}

/// Writes the object of a feature table.
pub fn encode_features(features: &FeatureTable) -> (text: Result<String, VendorError>)
    ensures
        match text {
            Ok(json) => features_encodable(features@) && json@ == features_text(features@),
            Err(error) => !features_encodable(features@) && error@ == encoding_failure(),
        },
{
    let mut members: Vec<String> = Vec::new();
    let mut i: usize = 0;
    while i < features.len()
        invariant
            i <= features@.len(),
            members.len() == i,
            forall|k: int|
                0 <= k < i ==> encodable((#[trigger] features@[k]).name) && all_encodable(
                    features@[k].enables,
                ),
            forall|k: int|
                0 <= k < i ==> members@[k]@ == field_text(
                    features@[k].name,
                    list_text(features@[k].enables),
                ),
        decreases features@.len() - i,
    {
        let feature = features.get(i);
        let enables: String = match encode_list(&feature.enables) {
            Ok(text) => text,
            Err(error) => {
                assert(!all_encodable(features@[i as int].enables));
                return Err(error);
            },
        };
        let key: String = match quote(feature.name.as_str()) {
            Ok(text) => text,
            Err(error) => {
                assert(!encodable(features@[i as int].name));
                return Err(error);
            },
        };
        members.push(member(key.as_str(), enables.as_str()));
        i += 1;
    }
    assert(texts_of(members@) =~= Seq::new(
        features@.len(),
        |k: int| field_text(features@[k].name, list_text(features@[k].enables)),
    ));
    Ok(object(&members))
}

/// Writes the array of the dependencies of a record.
pub fn encode_dependencies(dependencies: &Vec<RegistryDependency>) -> (text: Result<
    String,
    VendorError,
>)
    ensures
        match text {
            Ok(json) => dependencies_encodable(record_dependency_models(dependencies@)) && json@
                == dependencies_text(record_dependency_models(dependencies@)),
            Err(error) => !dependencies_encodable(record_dependency_models(dependencies@))
                && error@ == encoding_failure(),
        },
{
    let ghost models = record_dependency_models(dependencies@);
    let mut items: Vec<String> = Vec::new();
    let mut i: usize = 0;
    while i < dependencies.len()
        invariant
            i <= dependencies.len(),
            items.len() == i,
            models == record_dependency_models(dependencies@),
            forall|k: int| 0 <= k < i ==> dependency_encodable(dependencies@[k]@),
            forall|k: int| 0 <= k < i ==> items@[k]@ == dependency_text(dependencies@[k]@),
        decreases dependencies.len() - i,
    {
        match encode_dependency(&dependencies[i]) {
            Ok(item) => items.push(item),
            Err(error) => {
                assert(!dependency_encodable(models[i as int]));
                return Err(error);
            },
        }
        i += 1;
    }
    assert forall|k: int| 0 <= k < models.len() implies dependency_encodable(
        #[trigger] models[k],
    ) by {
        assert(dependency_encodable(dependencies@[k]@));
    }
    assert(texts_of(items@) =~= Seq::new(models.len(), |k: int| dependency_text(models[k])));
    Ok(array(&items))
}

/// Writes a record as one line of JSON, without the line's end: every field
/// is there, an empty list as `[]` and an empty table as `{}`.
pub fn encode_record(record: &RegistryPackage) -> (text: Result<String, VendorError>)
    ensures
        match text {
            Ok(json) => record_encodable(record@) && json@ == record_text(record@),
            Err(error) => !record_encodable(record@) && error@ == encoding_failure(),
        },
{
    let deps: String = encode_dependencies(&record.deps)?;
    let features: String = encode_features(&record.features)?;
    let yanked: String = match record.yanked {
        Some(flag) => boolean(flag),
        None => "null".to_owned(),
    };
    let mut members: Vec<String> = Vec::new();
    members.push(text_field("name", record.name.as_str())?);
    members.push(text_field("vers", record.vers.as_str())?);
    members.push(field("deps", deps.as_str())?);
    members.push(field("features", features.as_str())?);
    members.push(text_field("cksum", record.cksum.as_str())?);
    members.push(field("yanked", yanked.as_str())?);
    assert(texts_of(members@) =~= seq![
        field_text("name"@, json_text(record@.name)),
        field_text("vers"@, json_text(record@.vers)),
        field_text("deps"@, dependencies_text(record@.deps)),
        field_text("features"@, features_text(record@.features)),
        field_text("cksum"@, json_text(record@.cksum)),
        field_text("yanked"@, optional_bool_json(record@.yanked)),
    ]);
    Ok(object(&members))
}

} // verus!
