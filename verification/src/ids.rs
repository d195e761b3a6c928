//! Identifiers issued by the imaging server.
//!
//! Each identifier wraps the exact string the server issued; the view of an
//! identifier is that string's character sequence. `uri` returns the path of
//! the resource under the server's built-in API.

use vstd::prelude::*;
use vstd::string::StringExecFns;

verus! {

/// ID of a query to a remote modality.
#[derive(Debug, PartialEq, Eq, Hash)]
pub struct QueryId {
    id: String,
}

impl Clone for QueryId {
    fn clone(&self) -> (r: Self)
        ensures
            r == *self,
    {
        QueryId { id: self.id.clone() }
    }
}

impl View for QueryId {
    type V = Seq<char>;

    closed spec fn view(&self) -> Seq<char> {
        self.id@
    }
}

impl QueryId {
    pub fn new(id: String) -> (r: Self)
        ensures
            r@ == id@,
    {
        QueryId { id }
    }

    pub fn as_str(&self) -> (r: &str)
        ensures
            r@ == self@,
    {
        self.id.as_str()
    }

    pub fn into_string(self) -> (r: String)
        ensures
            r@ == self@,
    {
        self.id
    }

    /// Path of this query under the built-in API.
    pub fn uri(&self) -> (r: String)
        ensures
            r@ == "/queries/"@ + self@,
    {
        let mut s = String::from_str("/queries/");
        s.append(self.id.as_str());
        s
    }
}

/// ID of an asynchronous job.
#[derive(Debug, PartialEq, Eq, Hash)]
pub struct JobId {
    id: String,
}

impl Clone for JobId {
    fn clone(&self) -> (r: Self)
        ensures
            r == *self,
    {
        JobId { id: self.id.clone() }
    }
}

impl View for JobId {
    type V = Seq<char>;

    closed spec fn view(&self) -> Seq<char> {
        self.id@
    }
}

impl JobId {
    pub fn new(id: String) -> (r: Self)
        ensures
            r@ == id@,
    {
        JobId { id }
    }

    pub fn as_str(&self) -> (r: &str)
        ensures
            r@ == self@,
    {
        self.id.as_str()
    }

    pub fn into_string(self) -> (r: String)
        ensures
            r@ == self@,
    {
        self.id
    }

    /// Path of this job under the built-in API.
    pub fn uri(&self) -> (r: String)
        ensures
            r@ == "/jobs/"@ + self@,
    {
        let mut s = String::from_str("/jobs/");
        s.append(self.id.as_str());
        s
    }
}

/// ID of a patient stored by the imaging server.
#[derive(Debug, PartialEq, Eq, Hash)]
pub struct PatientId {
    id: String,
}

impl Clone for PatientId {
    fn clone(&self) -> (r: Self)
        ensures
            r == *self,
    {
        PatientId { id: self.id.clone() }
    }
}

impl View for PatientId {
    type V = Seq<char>;

    closed spec fn view(&self) -> Seq<char> {
        self.id@
    }
}

impl PatientId {
    pub fn new(id: String) -> (r: Self)
        ensures
            r@ == id@,
    {
        PatientId { id }
    }

    pub fn as_str(&self) -> (r: &str)
        ensures
            r@ == self@,
    {
        self.id.as_str()
    }

    /// Path of this patient under the built-in API.
    pub fn uri(&self) -> (r: String)
        ensures
            r@ == "/patients/"@ + self@,
    {
        let mut s = String::from_str("/patients/");
        s.append(self.id.as_str());
        s
    }
}

/// ID of a DICOM study stored by the imaging server.
#[derive(Debug, PartialEq, Eq, Hash)]
pub struct StudyId {
    id: String,
}

impl Clone for StudyId {
    fn clone(&self) -> (r: Self)
        ensures
            r == *self,
    {
        StudyId { id: self.id.clone() }
    }
}

impl View for StudyId {
    type V = Seq<char>;

    closed spec fn view(&self) -> Seq<char> {
        self.id@
    }
}

impl StudyId {
    pub fn new(id: String) -> (r: Self)
        ensures
            r@ == id@,
    {
        StudyId { id }
    }

    pub fn as_str(&self) -> (r: &str)
        ensures
            r@ == self@,
    {
        self.id.as_str()
    }

    /// Path of this study under the built-in API.
    pub fn uri(&self) -> (r: String)
        ensures
            r@ == "/studies/"@ + self@,
    {
        let mut s = String::from_str("/studies/");
        s.append(self.id.as_str());
        s
    }
}

/// ID of a DICOM series stored by the imaging server.
#[derive(Debug, PartialEq, Eq, Hash)]
pub struct SeriesId {
    id: String,
}

impl Clone for SeriesId {
    fn clone(&self) -> (r: Self)
        ensures
            r == *self,
    {
        SeriesId { id: self.id.clone() }
    }
}

impl View for SeriesId {
    type V = Seq<char>;

    closed spec fn view(&self) -> Seq<char> {
        self.id@
    }
}

impl SeriesId {
    pub fn new(id: String) -> (r: Self)
        ensures
            r@ == id@,
    {
        SeriesId { id }
    }

    pub fn as_str(&self) -> (r: &str)
        ensures
            r@ == self@,
    {
        self.id.as_str()
    }

    /// Path of this series under the built-in API.
    pub fn uri(&self) -> (r: String)
        ensures
            r@ == "/series/"@ + self@,
    {
        let mut s = String::from_str("/series/");
        s.append(self.id.as_str());
        s
    }
}

/// ID of a DICOM instance stored by the imaging server.
#[derive(Debug, PartialEq, Eq, Hash)]
pub struct InstanceId {
    id: String,
}

impl Clone for InstanceId {
    fn clone(&self) -> (r: Self)
        ensures
            r == *self,
    {
        InstanceId { id: self.id.clone() }
    }
}

impl View for InstanceId {
    type V = Seq<char>;

    closed spec fn view(&self) -> Seq<char> {
        self.id@
    }
}

impl InstanceId {
    pub fn new(id: String) -> (r: Self)
        ensures
            r@ == id@,
    {
        InstanceId { id }
    }

    pub fn as_str(&self) -> (r: &str)
        ensures
            r@ == self@,
    {
        self.id.as_str()
    }

    /// Path of this instance under the built-in API.
    pub fn uri(&self) -> (r: String)
        ensures
            r@ == "/instances/"@ + self@,
    {
        let mut s = String::from_str("/instances/");
        s.append(self.id.as_str());
        s
    }
}

/// ID and path of a resource, as reported when a job is created.
#[derive(Debug, PartialEq, Eq, Hash)]
pub struct IdAndPath<T> {
    pub id: T,
    pub path: String,
}

/// Response data from creating an asynchronous job.
#[derive(Debug, PartialEq, Eq, Hash)]
pub struct Job {
    pub id: JobId,
    pub path: String,
}

impl Clone for Job {
    fn clone(&self) -> (r: Self)
        ensures
            r == *self,
    {
        Job { id: self.id.clone(), path: self.path.clone() }
    }
}

/// Response from deleting a DICOM resource.
pub struct DeleteResponse<T> {
    pub remaining_ancestor: Option<IdAndPath<T>>,
}

} // verus!
