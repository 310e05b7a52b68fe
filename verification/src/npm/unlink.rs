//! `npm unlink -g`: as an uninstall, but of the package of the working
//! directory where none is named.

use vstd::prelude::*;
use crate::error::NvmdError;
use crate::npm::common::{
    package_names, strip_version_suffixes, Bookkeeping, ManifestSource, ManifestSourceView,
    ToolArgsView,
};
use crate::package::{
    all_bins, collect_bin_names, record_uninstalled_map, shims_to_remove, PackageJson, Packages,
};
use crate::shim::{actions, unlink_all, unlink_each};
use crate::text::texts;

verus! {

/// A global `npm unlink`: the packages to unlink, if any is named.
#[derive(Debug)]
pub struct UnlinkArgs {
    /// The command token and the flags.
    pub common_args: Vec<String>,
    /// The package specs.
    pub tools: Vec<String>,
}

impl View for UnlinkArgs {
    type V = ToolArgsView;

    open spec fn view(&self) -> ToolArgsView {
        ToolArgsView { common_args: texts(self.common_args@), tools: texts(self.tools@) }
    }
}

impl UnlinkArgs {
    /// The manifests to read before npm runs: that of the working directory
    /// where no package is named, else those of the named packages.
    pub fn before_source(&self) -> (r: Result<ManifestSource, NvmdError>)
        ensures
            r matches Ok(source) && source@ == if self@.tools.len() == 0 {
                ManifestSourceView::CurrentDir
            } else {
                ManifestSourceView::GlobalPackages(package_names(self@.tools))
            },
    {
        if self.tools.len() == 0 {
            return Ok(ManifestSource::CurrentDir);
        }
        match strip_version_suffixes(&self.tools) {
            Ok(names) => Ok(ManifestSource::GlobalPackages(names)),
            Err(e) => Err(e),
        }
    }

    /// Before npm runs: the binaries that the unlinking will concern.
    pub fn before_executor(&self, manifests: &Vec<PackageJson>) -> (pending: Vec<String>)
        ensures
            texts(pending@) == all_bins(manifests@),
    {
        collect_bin_names(manifests)
    }

    /// After npm has succeeded: `version` gives up each of the `pending`
    /// binaries, and those that no version claims any more lose their shim.
    pub fn after_executor(&self, version: &str, pending: &Vec<String>, registry: &mut Packages) -> (r:
        Bookkeeping)
        ensures
            final(registry)@ == record_uninstalled_map(
                old(registry)@,
                texts(pending@),
                version@,
            ),
            final(registry).file() == old(registry).file(),
            old(registry).wf() ==> final(registry).wf(),
            r.save,
            actions(r.shims@) == unlink_each(
                shims_to_remove(old(registry)@, texts(pending@), version@),
            ),
    {
        let to_remove = registry.record_uninstalled(pending, version);
        Bookkeeping { save: true, shims: unlink_all(&to_remove) }
    }
}

} // verus!
