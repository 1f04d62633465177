//! Datasource references.
use vstd::prelude::*;

verus! {

/// A Grafana datasource reference: a plugin type and a stable UID.
#[derive(Debug, PartialEq, Eq)]
pub struct DataSource {
    pub kind: String,
    pub uid: String,
    /// A human-readable authoring name; never serialized.
    pub name: Option<String>,
}

impl DataSource {
    /// Creates a datasource reference from a plugin type and stable UID.
    pub fn new(kind: &str, uid: &str) -> (d: Self)
        ensures
            d.kind@ == kind@,
            d.uid@ == uid@,
            d.name is None,
    {
        DataSource { kind: kind.to_string(), uid: uid.to_string(), name: None }
    }

    /// Adds a human-readable name without changing the serialized identity.
    pub fn name(self, name: &str) -> (d: Self)
        ensures
            d.kind == self.kind,
            d.uid == self.uid,
            d.name matches Some(n) && n@ == name@,
    {
        DataSource { name: Some(name.to_string()), ..self }
    }

    /// Returns the Grafana datasource plugin type.
    pub fn kind(&self) -> (k: &str)
        ensures
            k@ == self.kind@,
    {
        self.kind.as_str()
    }

    /// Returns the datasource UID.
    pub fn uid(&self) -> (u: &str)
        ensures
            u@ == self.uid@,
    {
        self.uid.as_str()
    }

    /// Returns the optional human-readable authoring name.
    pub fn display_name(&self) -> (n: Option<&str>)
        ensures
            match self.name {
                Some(name) => n matches Some(s) && s@ == name@,
                None => n is None,
            },
    {
        match &self.name {
            Some(name) => Some(name.as_str()),
            None => None,
        }
    }

    pub fn copy(&self) -> (d: Self)
        ensures
            d == *self,
    {
        DataSource {
            kind: self.kind.clone(),
            uid: self.uid.clone(),
            name: crate::text::copy_opt(&self.name),
        }
    }
}

/// Creates a Prometheus datasource reference using `uid` as its stable ID.
pub fn prometheus(uid: &str) -> (d: DataSource)
    ensures
        d.kind@ == "prometheus"@,
        d.uid@ == uid@,
        d.name is None,
{
    DataSource::new("prometheus", uid)
}

/// Creates a Loki datasource reference using `uid` as its stable ID.
pub fn loki(uid: &str) -> (d: DataSource)
    ensures
        d.kind@ == "loki"@,
        d.uid@ == uid@,
        d.name is None,
{
    DataSource::new("loki", uid)
}

pub fn copy_opt_datasource(d: &Option<DataSource>) -> (c: Option<DataSource>)
    ensures
        c == *d,
{
    match d {
        Some(d) => Some(d.copy()),
        None => None,
    }
}

} // verus!
