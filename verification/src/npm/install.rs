//! `npm install -g` and `npm update -g`: the binaries of the installed
//! packages are recorded under the active version and get their shims.

use vstd::prelude::*;
use crate::error::NvmdError;
use crate::npm::common::{
    package_names, strip_version_suffixes, Bookkeeping, ManifestSource, ManifestSourceView,
    ToolArgsView,
};
use crate::package::{all_bins, collect_bin_names, record_installed_map, PackageJson, Packages};
use crate::shim::{actions, link_all, link_each};
use crate::text::texts;

verus! {

/// A global install or update: the packages whose binaries get a shim.
#[derive(Debug)]
pub struct InstallArgs {
    /// The command token and the flags.
    pub common_args: Vec<String>,
    /// The package specs.
    pub tools: Vec<String>,
}

impl View for InstallArgs {
    type V = ToolArgsView;

    open spec fn view(&self) -> ToolArgsView {
        ToolArgsView { common_args: texts(self.common_args@), tools: texts(self.tools@) }
    }
}

impl InstallArgs {
    /// The manifests to read once npm has succeeded: those of the named
    /// packages, each spec without its version or tag suffix.
    pub fn after_source(&self) -> (r: Result<ManifestSource, NvmdError>)
        ensures
            r matches Ok(source) && source@ == ManifestSourceView::GlobalPackages(
                package_names(self@.tools),
            ),
    {
        match strip_version_suffixes(&self.tools) {
            Ok(names) => Ok(ManifestSource::GlobalPackages(names)),
            Err(e) => Err(e),
        }
    }

    /// After npm has succeeded: records every binary of `manifests` under
    /// `version` and asks for a shim for each.
    pub fn after_executor(
        &self,
        version: &str,
        manifests: &Vec<PackageJson>,
        registry: &mut Packages,
    ) -> (r: Bookkeeping)
        ensures
            final(registry)@ == record_installed_map(
                old(registry)@,
                all_bins(manifests@),
                version@,
            ),
            final(registry).file() == old(registry).file(),
            old(registry).wf() ==> final(registry).wf(),
            r.save,
            actions(r.shims@) == link_each(all_bins(manifests@)),
    {
        let names = collect_bin_names(manifests);
        registry.record_installed(&names, version);
        Bookkeeping { save: true, shims: link_all(&names) }
    }
}

} // verus!
