//! `npm link`: the binaries of the linked package directories are recorded
//! under the active version and get their shims.

use vstd::prelude::*;
use crate::home::Platform;
use crate::npm::common::{
    relative_args, relative_paths, Bookkeeping, ManifestSource, ManifestSourceView, ToolArgsView,
};
use crate::package::{all_bins, collect_bin_names, record_installed_map, PackageJson, Packages};
use crate::shim::{actions, link_all, link_each};
use crate::text::texts;

verus! {

/// An `npm link`: the package directories to link, if any is named.
#[derive(Debug)]
pub struct LinkArgs {
    /// The command token and the flags.
    pub common_args: Vec<String>,
    /// The packages or package directories.
    pub tools: Vec<String>,
}

impl View for LinkArgs {
    type V = ToolArgsView;

    open spec fn view(&self) -> ToolArgsView {
        ToolArgsView { common_args: texts(self.common_args@), tools: texts(self.tools@) }
    }
}

impl LinkArgs {
    /// The manifests to read once npm has succeeded: that of the working
    /// directory where nothing is named, else those of the directories named
    /// by a relative path. A package named otherwise comes from the npm
    /// registry and is no link target.
    pub fn after_source(&self, platform: Platform) -> (r: ManifestSource)
        ensures
            r@ == if self@.tools.len() == 0 {
                ManifestSourceView::CurrentDir
            } else {
                ManifestSourceView::RelativeDirs(relative_paths(self@.tools, platform))
            },
    {
        if self.tools.len() == 0 {
            ManifestSource::CurrentDir
        } else {
            ManifestSource::RelativeDirs(relative_args(&self.tools, platform))
        }
    }

    /// After npm has succeeded: records every binary of `manifests` under
    /// `version` and asks for a shim for each. Without any binary the
    /// registry is left alone.
    pub fn after_executor(
        &self,
        version: &str,
        manifests: &Vec<PackageJson>,
        registry: &mut Packages,
    ) -> (r: Bookkeeping)
        ensures
            final(registry)@ == if all_bins(manifests@).len() == 0 {
                old(registry)@
            } else {
                record_installed_map(old(registry)@, all_bins(manifests@), version@)
            },
            final(registry).file() == old(registry).file(),
            old(registry).wf() ==> final(registry).wf(),
            r.save == (all_bins(manifests@).len() > 0),
            actions(r.shims@) == link_each(all_bins(manifests@)),
    {
        let names = collect_bin_names(manifests);
        if names.len() == 0 {
            let r = Bookkeeping::nothing();
            return r;
        }
        registry.record_installed(&names, version);
        Bookkeeping { save: true, shims: link_all(&names) }
    }
}

} // verus!
