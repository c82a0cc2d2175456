use vstd::prelude::*;
use vstd::string::StringExecFns;

verus! {

/// Mathematical model of `Info`.
pub ghost struct InfoV {
    pub bin_name: Seq<char>,
    pub name: Seq<char>,
    pub version: Seq<char>,
}

/// Static identity of this program: binary name, display name, version.
#[derive(Clone, Debug)]
pub struct Info {
    bin_name: String,
    name: String,
    version: String,
}

impl View for Info {
    type V = InfoV;

    closed spec fn view(&self) -> InfoV {
        InfoV { bin_name: self.bin_name@, name: self.name@, version: self.version@ }
    }
}

impl Info {
    pub fn new() -> (r: Info)
        ensures
            r@.bin_name == "auditor"@,
            r@.name == "Auditor"@,
            r@.version == "v0.1.0"@,
    {
        Info {
            bin_name: String::from_str("auditor"),
            name: String::from_str("Auditor"),
            version: String::from_str("v0.1.0"),
        }
    }

    pub fn bin_name(&self) -> (r: &String)
        ensures
            r@ == self@.bin_name,
    {
        &self.bin_name
    }

    pub fn name(&self) -> (r: &String)
        ensures
            r@ == self@.name,
    {
        &self.name
    }

    pub fn version(&self) -> (r: &String)
        ensures
            r@ == self@.version,
    {
        &self.version
    }
}

} // verus!
