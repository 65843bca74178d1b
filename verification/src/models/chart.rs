//! Charts and the index document that lists them.

use std::collections::HashMap;
use vstd::prelude::*;
use vstd::string::*;

verus! {

/// The `apiVersion` of a chart: `v2` for charts that need Helm 3, `v1` for
/// charts that earlier versions can install too.
#[derive(Debug, Clone, Copy, PartialEq, Eq, Structural, PartialOrd, Ord, Hash)]
pub enum ApiVersion {
    V1,
    V2,
}

impl Default for ApiVersion {
    fn default() -> (v: Self)
        ensures
            v == ApiVersion::V2,
    {
        ApiVersion::V2
    }
}

/// The kinds of repository that the registry knows.
#[derive(Debug, Clone, Copy, PartialEq, Eq, Structural, PartialOrd, Ord, Hash)]
pub enum RepositoryType {
    Application,
    Library,
    Operator,
}

impl Default for RepositoryType {
    fn default() -> (t: Self)
        ensures
            t == RepositoryType::Application,
    {
        RepositoryType::Application
    }
}

/// A pair of paths that says where a value of a child chart goes in its
/// parent.
#[derive(Clone, Debug, PartialEq, Default)]
pub struct ImportValue {
    /// The source key of the values to be imported.
    pub child: String,
    /// The destination path in the parent chart's values.
    pub parent: String,
}

/// An item of a dependency's `import-values`: either a plain string or a
/// child/parent pair, never both and never neither.
#[derive(Debug, Clone)]
pub struct StringOrImportValue {
    string: Option<String>,
    import_value: Option<ImportValue>,
}

impl StringOrImportValue {
    /// The plain string, where the item is one.
    pub closed spec fn spec_string(&self) -> Option<String> {
        self.string
    }

    /// The child/parent pair, where the item is one.
    pub closed spec fn spec_import_value(&self) -> Option<ImportValue> {
        self.import_value
    }

    /// Exactly one of the two forms is present.
    pub open spec fn wf(&self) -> bool {
        self.spec_string() is Some != self.spec_import_value() is Some
    }

    /// The item that is the plain string `text`.
    pub fn from_string(text: String) -> (item: Self)
        ensures
            item.wf(),
            item.spec_string() == Some(text),
            item.spec_import_value() is None,
    {
        StringOrImportValue { string: Some(text), import_value: None }
    }

    /// The item that is the pair `pair`.
    pub fn from_import_value(pair: ImportValue) -> (item: Self)
        ensures
            item.wf(),
            item.spec_string() is None,
            item.spec_import_value() == Some(pair),
    {
        StringOrImportValue { string: None, import_value: Some(pair) }
    }

    /// A copy of the plain string, where the item is one.
    pub fn string(&self) -> (r: Option<String>)
        ensures
            r == self.spec_string(),
    {
        match &self.string {
            Some(s) => Some(s.clone()),
            None => None,
        }
    }

    /// A copy of the child/parent pair, where the item is one.
    pub fn import_value(&self) -> (r: Option<ImportValue>)
        ensures
            r == self.spec_import_value(),
    {
        match &self.import_value {
            Some(v) => Some(ImportValue { child: v.child.clone(), parent: v.parent.clone() }),
            None => None,
        }
    }
}

/// The two fields of a child/parent pair.
#[derive(Debug, Clone, Copy, PartialEq, Eq, Structural)]
pub enum ImportField {
    Child,
    Parent,
}

/// What can be wrong with a mapping that is read as a child/parent pair.
#[derive(Debug)]
pub enum ImportValueError {
    /// A field was given a second time.
    DuplicateField(ImportField),
    /// A key that names neither field.
    UnknownField(String),
    /// The mapping ended without this field.
    MissingField(ImportField),
}

/// The fields of a child/parent pair while the pair is being read, key by
/// key, from a mapping.
#[derive(Debug)]
pub struct ImportValueFields {
    child: Option<String>,
    parent: Option<String>,
}

impl ImportValueFields {
    /// The child read so far.
    pub closed spec fn child(&self) -> Option<String> {
        self.child
    }

    /// The parent read so far.
    pub closed spec fn parent(&self) -> Option<String> {
        self.parent
    }

    /// The field that a key names, if it names one.
    pub open spec fn field_of(key: Seq<char>) -> Option<ImportField> {
        if key == "child"@ {
            Some(ImportField::Child)
        } else if key == "parent"@ {
            Some(ImportField::Parent)
        } else {
            None
        }
    }

    /// Whether a field has been read.
    pub open spec fn has(&self, field: ImportField) -> bool {
        match field {
            ImportField::Child => self.child() is Some,
            ImportField::Parent => self.parent() is Some,
        }
    }

    /// Nothing read yet.
    pub fn new() -> (fields: Self)
        ensures
            fields.child() is None,
            fields.parent() is None,
    {
        ImportValueFields { child: None, parent: None }
    }

    /// Judges the next key of the mapping, before its value is read: the
    /// field whose value comes next, or why the mapping is no pair.
    pub fn accept_key(&self, key: &str) -> (field: Result<ImportField, ImportValueError>)
        ensures
            match Self::field_of(key@) {
                Some(named) => if self.has(named) {
                    field == Err::<ImportField, ImportValueError>(
                        ImportValueError::DuplicateField(named),
                    )
                } else {
                    field == Ok::<ImportField, ImportValueError>(named)
                },
                None => field matches Err(ImportValueError::UnknownField(unknown)) && unknown@
                    == key@,
            },
    {
        let key = key.to_owned();
        if key == "child".to_owned() {
            if self.child.is_some() {
                Err(ImportValueError::DuplicateField(ImportField::Child))
            } else {
                Ok(ImportField::Child)
            }
        } else if key == "parent".to_owned() {
            if self.parent.is_some() {
                Err(ImportValueError::DuplicateField(ImportField::Parent))
            } else {
                Ok(ImportField::Parent)
            }
        } else {
            Err(ImportValueError::UnknownField(key))
        }
    }

    /// Takes the value of a field.
    pub fn set(&mut self, field: ImportField, value: String)
        ensures
            final(self).child() == match field {
                ImportField::Child => Some(value),
                ImportField::Parent => old(self).child(),
            },
            final(self).parent() == match field {
                ImportField::Child => old(self).parent(),
                ImportField::Parent => Some(value),
            },
    {
        match field {
            ImportField::Child => {
                self.child = Some(value);
            },
            ImportField::Parent => {
                self.parent = Some(value);
            },
        }
    }

    /// Ends the reading: the pair, or the field that is missing. A missing
    /// parent is reported before a missing child.
    pub fn finish(self) -> (item: Result<StringOrImportValue, ImportValueError>)
        ensures
            match (self.parent(), self.child()) {
                (None, _) => item == Err::<StringOrImportValue, ImportValueError>(
                    ImportValueError::MissingField(ImportField::Parent),
                ),
                (Some(_), None) => item == Err::<StringOrImportValue, ImportValueError>(
                    ImportValueError::MissingField(ImportField::Child),
                ),
                (Some(parent), Some(child)) => item matches Ok(pair) && pair.wf()
                    && pair.spec_string() is None && pair.spec_import_value() == Some(
                    ImportValue { child, parent },
                ),
            },
    {
        match self.parent {
            None => Err(ImportValueError::MissingField(ImportField::Parent)),
            Some(parent) => match self.child {
                None => Err(ImportValueError::MissingField(ImportField::Child)),
                Some(child) => Ok(
                    StringOrImportValue::from_import_value(ImportValue { child, parent }),
                ),
            },
        }
    }
}

/// A moment as the seconds since the Unix epoch and the nanoseconds within
/// that second.
#[derive(Debug, Clone, Copy, Default, PartialEq, Eq, Structural)]
pub struct Timestamp {
    pub seconds: i64,
    pub nanoseconds: u32,
}

/// The index document of a chart repository: every published version of
/// every chart, keyed by chart name.
#[derive(Debug, Clone, Default)]
pub struct ChartIndexYaml {
    pub api_version: String,
    pub entries: HashMap<String, Vec<ChartIndexSpec>>,
    pub generated: Timestamp,
}

/// A chart that another chart depends on.
#[derive(Debug, Clone, Default)]
pub struct ChartDependency {
    /// The name of the chart.
    pub name: String,
    /// The version of the chart.
    pub version: Option<String>,
    /// The repository URL or alias.
    pub repository: Option<String>,
    /// A YAML path that resolves to a boolean, used for enabling or disabling
    /// charts.
    pub condition: Option<String>,
    /// Tags that can be used to group charts together.
    pub tags: Vec<String>,
    /// The mapping of source values to parent keys to be imported.
    pub import_values: Vec<StringOrImportValue>,
    /// Alias to be used for the chart.
    pub alias: Option<String>,
}

/// Someone who maintains a chart.
#[derive(Clone, Debug, PartialEq, Default)]
pub struct ChartMaintainer {
    /// The maintainer's name.
    pub name: String,
    /// The maintainer's email address.
    pub email: Option<String>,
    /// A URL for the maintainer.
    pub url: Option<String>,
}

/// One published version of a chart, as the index lists it.
#[derive(Clone, Debug, Default)]
pub struct ChartIndexSpec {
    pub api_version: ApiVersion,
    /// The name of the chart.
    pub name: String,
    /// A SemVer 2 version.
    pub version: String,
    /// SemVer constraints on the supported Kubernetes versions.
    pub kube_version: Option<String>,
    /// A single-sentence description of the chart.
    pub description: Option<String>,
    /// The type of the chart.
    pub chart_type: Option<RepositoryType>,
    /// Keywords about the project.
    pub keywords: Vec<String>,
    /// The URL of the chart's homepage.
    pub home: Option<String>,
    /// URLs to the source code of the chart.
    pub sources: Vec<String>,
    /// The charts that this chart depends on.
    pub dependencies: Vec<ChartDependency>,
    /// The people who maintain the chart.
    pub maintainers: Vec<ChartMaintainer>,
    /// A URL or image to be used as the icon.
    pub icon: Option<String>,
    /// The version of the application that the chart installs.
    pub app_version: Option<String>,
    /// Whether the chart is deprecated.
    pub deprecated: Option<bool>,
    /// Annotations keyed by name.
    pub annotations: HashMap<String, String>,
}

} // verus!
