//! The scuba samples that record new versions of a repository's segmented changelog.
use vstd::prelude::*;

verus! {

/// The value of one field of a scuba sample.
pub enum SampleValue {
    I32(i32),
    U64(u64),
    Text(String),
}

/// A field value as the contracts see it.
pub enum FieldValue {
    I32(i32),
    U64(u64),
    Text(Seq<char>),
}

impl SampleValue {
    pub open spec fn view(self) -> FieldValue {
        match self {
            SampleValue::I32(v) => FieldValue::I32(v),
            SampleValue::U64(v) => FieldValue::U64(v),
            SampleValue::Text(s) => FieldValue::Text(s@),
        }
    }
}

/// A sample for a scuba table: the table's name and the fields, in the order in
/// which they are added. The server data common to all samples is added when the
/// sample is sent.
pub struct ScubaSample {
    pub table: &'static str,
    pub fields: Vec<(&'static str, SampleValue)>,
}

/// The fields of a sample as the contracts see them.
pub open spec fn fields_view(fields: Seq<(&'static str, SampleValue)>) -> Seq<(Seq<char>, FieldValue)> {
    fields.map_values(|f: (&'static str, SampleValue)| (f.0@, f.1@))
}

/// The table that all segmented changelog version samples go to.
pub open spec fn version_table() -> Seq<char> {
    "segmented_changelog_version"@
}

/// The fields logged for a new IdMap version.
pub open spec fn idmap_fields(repo_id: i32, idmap_version: u64) -> Seq<(Seq<char>, FieldValue)> {
    seq![
        ("type"@, FieldValue::Text("idmap"@)),
        ("repo_id"@, FieldValue::I32(repo_id)),
        ("idmap_version"@, FieldValue::U64(idmap_version)),
    ]
}

/// The fields logged for a new IdDag version, given as its displayed text.
pub open spec fn iddag_fields(repo_id: i32, iddag_version: Seq<char>) -> Seq<(Seq<char>, FieldValue)> {
    seq![
        ("type"@, FieldValue::Text("iddag"@)),
        ("repo_id"@, FieldValue::I32(repo_id)),
        ("iddag_version"@, FieldValue::Text(iddag_version)),
    ]
}

/// The fields logged for a new segmented changelog version.
pub open spec fn changelog_fields(
    repo_id: i32,
    idmap_version: u64,
    iddag_version: Seq<char>,
) -> Seq<(Seq<char>, FieldValue)> {
    seq![
        ("type"@, FieldValue::Text("segmented_changelog"@)),
        ("repo_id"@, FieldValue::I32(repo_id)),
        ("idmap_version"@, FieldValue::U64(idmap_version)),
        ("iddag_version"@, FieldValue::Text(iddag_version)),
    ]
}

/// The sample of a new segmented changelog version carries the repository and the
/// two versions in the same fields as the samples of the IdMap and IdDag versions.
pub proof fn lemma_changelog_sample_agrees(repo_id: i32, idmap_version: u64, iddag_version: Seq<char>)
    ensures
        changelog_fields(repo_id, idmap_version, iddag_version)[1] == idmap_fields(
            repo_id,
            idmap_version,
        )[1],
        changelog_fields(repo_id, idmap_version, iddag_version)[1] == iddag_fields(
            repo_id,
            iddag_version,
        )[1],
        changelog_fields(repo_id, idmap_version, iddag_version)[2] == idmap_fields(
            repo_id,
            idmap_version,
        )[2],
        changelog_fields(repo_id, idmap_version, iddag_version)[3] == iddag_fields(
            repo_id,
            iddag_version,
        )[2],
{
}

/// Every sample names the segmented changelog version table.
pub proof fn lemma_version_table_name()
    ensures
        version_table() == "segmented_changelog_version"@,
{
}

/// The contract view of a field keeps its key's text and its value: integers as
/// they are, text by its characters.
pub proof fn lemma_fields_view_keeps_fields(fields: Seq<(&'static str, SampleValue)>, i: int)
    requires
        0 <= i < fields.len(),
    ensures
        fields_view(fields).len() == fields.len(),
        fields_view(fields)[i].0 == fields[i].0@,
        fields[i].1 matches SampleValue::I32(v) ==> fields_view(fields)[i].1 == FieldValue::I32(v),
        fields[i].1 matches SampleValue::U64(v) ==> fields_view(fields)[i].1 == FieldValue::U64(v),
        fields[i].1 matches SampleValue::Text(t) ==> fields_view(fields)[i].1 == FieldValue::Text(t@),
{
}

/// An IdMap version sample is of type "idmap" and carries the repository and the
/// version unchanged, for every repository and version.
pub proof fn lemma_idmap_fields_exact(repo_id: i32, idmap_version: u64)
    ensures
        idmap_fields(repo_id, idmap_version).len() == 3,
        idmap_fields(repo_id, idmap_version)[0] == ("type"@, FieldValue::Text("idmap"@)),
        idmap_fields(repo_id, idmap_version)[1] == ("repo_id"@, FieldValue::I32(repo_id)),
        idmap_fields(repo_id, idmap_version)[2] == ("idmap_version"@, FieldValue::U64(idmap_version)),
{
}

/// An IdDag version sample is of type "iddag" and carries the repository and the
/// whole displayed version text, for every repository and text.
pub proof fn lemma_iddag_fields_exact(repo_id: i32, iddag_version: Seq<char>)
    ensures
        iddag_fields(repo_id, iddag_version).len() == 3,
        iddag_fields(repo_id, iddag_version)[0] == ("type"@, FieldValue::Text("iddag"@)),
        iddag_fields(repo_id, iddag_version)[1] == ("repo_id"@, FieldValue::I32(repo_id)),
        iddag_fields(repo_id, iddag_version)[2] == ("iddag_version"@, FieldValue::Text(iddag_version)),
{
}

/// A segmented changelog version sample is of type "segmented_changelog" and
/// carries the repository, the IdMap version and the whole displayed IdDag version.
pub proof fn lemma_changelog_fields_exact(repo_id: i32, idmap_version: u64, iddag_version: Seq<char>)
    ensures
        changelog_fields(repo_id, idmap_version, iddag_version).len() == 4,
        changelog_fields(repo_id, idmap_version, iddag_version)[0] == ("type"@, FieldValue::Text(
            "segmented_changelog"@,
        )),
        changelog_fields(repo_id, idmap_version, iddag_version)[1] == ("repo_id"@, FieldValue::I32(
            repo_id,
        )),
        changelog_fields(repo_id, idmap_version, iddag_version)[2] == ("idmap_version"@,
        FieldValue::U64(idmap_version)),
        changelog_fields(repo_id, idmap_version, iddag_version)[3] == ("iddag_version"@,
        FieldValue::Text(iddag_version)),
{
}

fn version_table_name() -> (t: &'static str)
    ensures
        t@ == version_table(),
{
    "segmented_changelog_version"
}

fn text_field(key: &'static str, text: &str) -> (f: (&'static str, SampleValue))
    ensures
        f.0 == key,
        f.1@ == FieldValue::Text(text@),
{
    (key, SampleValue::Text(text.to_owned()))
}

/// The sample that records a new IdMap version of repository `repo_id`.
pub fn idmap_version_sample(repo_id: i32, idmap_version: u64) -> (sample: ScubaSample)
    ensures
        sample.table@ == version_table(),
        sample.table@ == "segmented_changelog_version"@,
        sample.fields@.len() == 3,
        fields_view(sample.fields@) == idmap_fields(repo_id, idmap_version),
        sample.fields@[0].0@ == "type"@,
        sample.fields@[0].1 matches SampleValue::Text(t) && t@ == "idmap"@,
        sample.fields@[1].0@ == "repo_id"@,
        sample.fields@[1].1 == SampleValue::I32(repo_id),
        sample.fields@[2].0@ == "idmap_version"@,
        sample.fields@[2].1 == SampleValue::U64(idmap_version),
{
    let mut fields: Vec<(&'static str, SampleValue)> = Vec::new();
    fields.push(text_field("type", "idmap"));
    fields.push(("repo_id", SampleValue::I32(repo_id)));
    fields.push(("idmap_version", SampleValue::U64(idmap_version)));
    let sample = ScubaSample { table: version_table_name(), fields };
    assert(fields_view(sample.fields@) =~= idmap_fields(repo_id, idmap_version));
    sample
}

/// The sample that records a new IdDag version of repository `repo_id`; the
/// version is given as its displayed text.
pub fn iddag_version_sample(repo_id: i32, iddag_version: &str) -> (sample: ScubaSample)
    ensures
        sample.table@ == version_table(),
        sample.table@ == "segmented_changelog_version"@,
        sample.fields@.len() == 3,
        fields_view(sample.fields@) == iddag_fields(repo_id, iddag_version@),
        sample.fields@[0].0@ == "type"@,
        sample.fields@[0].1 matches SampleValue::Text(t) && t@ == "iddag"@,
        sample.fields@[1].0@ == "repo_id"@,
        sample.fields@[1].1 == SampleValue::I32(repo_id),
        sample.fields@[2].0@ == "iddag_version"@,
        sample.fields@[2].1 matches SampleValue::Text(t) && t@ == iddag_version@,
{
    let mut fields: Vec<(&'static str, SampleValue)> = Vec::new();
    fields.push(text_field("type", "iddag"));
    fields.push(("repo_id", SampleValue::I32(repo_id)));
    fields.push(text_field("iddag_version", iddag_version));
    let sample = ScubaSample { table: version_table_name(), fields };
    assert(fields_view(sample.fields@) =~= iddag_fields(repo_id, iddag_version@));
    sample
}

/// The sample that records a new segmented changelog version of repository
/// `repo_id`, made of an IdMap version and an IdDag version (as its displayed text).
pub fn segmented_changelog_version_sample(
    repo_id: i32,
    idmap_version: u64,
    iddag_version: &str,
) -> (sample: ScubaSample)
    ensures
        sample.table@ == version_table(),
        sample.table@ == "segmented_changelog_version"@,
        sample.fields@.len() == 4,
        fields_view(sample.fields@) == changelog_fields(repo_id, idmap_version, iddag_version@),
        sample.fields@[0].0@ == "type"@,
        sample.fields@[0].1 matches SampleValue::Text(t) && t@ == "segmented_changelog"@,
        sample.fields@[1].0@ == "repo_id"@,
        sample.fields@[1].1 == SampleValue::I32(repo_id),
        sample.fields@[2].0@ == "idmap_version"@,
        sample.fields@[2].1 == SampleValue::U64(idmap_version),
        sample.fields@[3].0@ == "iddag_version"@,
        sample.fields@[3].1 matches SampleValue::Text(t) && t@ == iddag_version@,
{
    let mut fields: Vec<(&'static str, SampleValue)> = Vec::new();
    fields.push(text_field("type", "segmented_changelog"));
    fields.push(("repo_id", SampleValue::I32(repo_id)));
    fields.push(("idmap_version", SampleValue::U64(idmap_version)));
    fields.push(text_field("iddag_version", iddag_version));
    let sample = ScubaSample { table: version_table_name(), fields };
    assert(fields_view(sample.fields@) =~= changelog_fields(
        repo_id,
        idmap_version,
        iddag_version@,
    ));
    sample
}

} // verus!
