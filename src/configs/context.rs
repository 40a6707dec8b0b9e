//! Package placeholders in descriptor text.
use vstd::prelude::*;
use crate::packages::Package;
use crate::text::{replace, replaced};

verus! {

/// The values that placeholders in descriptor text stand for.
pub struct Context {
    package_name: String,
    package_version: String,
}

impl Context {
    /// The package's name.
    pub closed spec fn name(&self) -> Seq<char> {
        self.package_name@
    }

    /// The package's active version.
    pub closed spec fn version(&self) -> Seq<char> {
        self.package_version@
    }

    /// The placeholders of `package`: its name and active version.
    pub fn from(package: &Package) -> (r: Self)
        ensures
            r.name() == package.name@,
            r.version() == package.versions.current@,
    {
        Self {
            package_name: package.name.clone(),
            package_version: package.versions.current.clone(),
        }
    }

    /// `text` with `${hbox_package_name}` and then `${hbox_package_version}`
    /// replaced by the package's name and version.
    pub fn apply(&self, text: String) -> (r: String)
        ensures
            r@ == replaced(
                replaced(text@, "${hbox_package_name}"@, self.name()),
                "${hbox_package_version}"@,
                self.version(),
            ),
    {
        proof {
            reveal_strlit("${hbox_package_name}");
            reveal_strlit("${hbox_package_version}");
        }
        let named = replace(text.as_str(), "${hbox_package_name}", self.package_name.as_str());
        replace(named.as_str(), "${hbox_package_version}", self.package_version.as_str())
    }
}

} // verus!
