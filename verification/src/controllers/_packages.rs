use vstd::prelude::*;

use crate::services::_packages::{
    package_managers, spec_package_flag, spec_package_id, spec_package_managers,
    spec_package_name, Package,
};

verus! {

/// Answers the requests about package managers.
pub struct PackagesController;

/// The package managers installed on the server.
pub struct PackagesResponse {
    pub packages: Vec<Package>,
}

impl PackagesResponse {
    pub fn new(packages: Vec<Package>) -> (r: Self)
        ensures
            r.packages@ == packages@,
    {
        Self { packages }
    }
}

impl PackagesController {
    /// The package managers to look for, in the order the server asks them
    /// whether they are installed.
    pub fn candidates() -> (r: Vec<Package>)
        ensures
            r@.len() == spec_package_managers().len(),
            forall|i: int|
                0 <= i < r@.len() ==> {
                    &&& (#[trigger] r@[i]).id == spec_package_id(spec_package_managers()[i])
                    &&& r@[i].name@ == spec_package_name(spec_package_managers()[i])
                    &&& r@[i].y == spec_package_flag(spec_package_managers()[i])
                },
    {
        let managers = package_managers();
        let mut r: Vec<Package> = Vec::new();
        let mut i: usize = 0;
        while i < managers.len()
            invariant
                managers@ == spec_package_managers(),
                i <= managers.len(),
                r@.len() == i,
                forall|j: int|
                    0 <= j < i ==> {
                        &&& (#[trigger] r@[j]).id == spec_package_id(spec_package_managers()[j])
                        &&& r@[j].name@ == spec_package_name(spec_package_managers()[j])
                        &&& r@[j].y == spec_package_flag(spec_package_managers()[j])
                    },
            decreases managers.len() - i,
        {
            r.push(managers[i].get());
            i += 1;
        }
        r
    }
}

} // verus!
