//! The configuration of one build.

use vstd::prelude::*;
use vstd::string::*;
use crate::revision::Revision;
use crate::revision::RevisionView;
use crate::settings::CMakeSettingValue;
use crate::settings::OptionId;
use crate::settings::UserSettings;
use crate::settings::OPTION_COUNT;
use crate::text::copy_text;
use crate::text::text_of;
use crate::text::text_pairs;
use crate::text::text_pairs_push;

verus! {

/// The upstream repository.
pub const TVM_REPO: &'static str = "https://github.com/apache/tvm";

/// The branch that is built where none is named.
pub const DEFAULT_BRANCH: &'static str = "main";

/// All that one build can be told.
#[derive(Debug, PartialEq, Eq)]
pub struct BuildConfig {
    /// The repository to fetch from; the upstream repository where `None`.
    pub repository: Option<String>,
    /// A directory of the user's own that holds the revision.
    pub repository_path: Option<String>,
    /// Where to build. Not supported yet: a build with an output path is
    /// refused.
    pub output_path: Option<String>,
    /// The branch to build; the default branch where `None`.
    pub branch: Option<String>,
    /// Whether the build tool reports all that it does.
    pub verbose: bool,
    /// Whether what is there of the revision is removed first. This holds only
    /// for a revision that is kept under the installation root.
    pub clean: bool,
    /// The build options that are set.
    pub settings: UserSettings,
}

impl Default for BuildConfig {
    /// The default branch of the upstream repository, with no option set.
    fn default() -> (r: BuildConfig)
        ensures
            r.repository is None,
            r.repository_path is None,
            r.output_path is None,
            r.branch is None,
            !r.verbose,
            !r.clean,
            forall|id: OptionId| r.settings.spec_value(id) is None,
            r.settings.defines() == Seq::<(Seq<char>, Seq<char>)>::empty(),
    {
        BuildConfig {
            repository: None,
            repository_path: None,
            output_path: None,
            branch: None,
            verbose: false,
            clean: false,
            settings: UserSettings::default(),
        }
    }
}

impl BuildConfig {
    /// The revision that the configuration asks for.
    pub open spec fn spec_revision(&self) -> RevisionView {
        RevisionView {
            revision: match self.branch {
                Some(b) => b@,
                None => DEFAULT_BRANCH@,
            },
            repository_url: text_of(self.repository),
            repository_path: text_of(self.repository_path),
        }
    }

    /// The revision that the configuration asks for.
    pub fn get_revision(&self) -> (r: Revision)
        ensures
            r@ == self.spec_revision(),
    {
        let revision = match &self.branch {
            Some(b) => b.clone(),
            None => DEFAULT_BRANCH.to_owned(),
        };
        Revision {
            revision,
            repository_url: copy_text(&self.repository),
            repository_path: copy_text(&self.repository_path),
        }
    }

    /// A definition: the key and the text of the value.
    pub fn setting_key_value<T: CMakeSettingValue>(k: &str, value: &T) -> (r: (String, String))
        ensures
            r.0@ == k@,
            r.1@ == value.string_value(),
    {
        (k.to_owned(), value.as_string_value())
    }

    /// The settings that are set, as CMake definitions: for each option that is
    /// set, in the catalog's order, its key and the text of its value.
    pub fn as_cmake_define_key_values(&self) -> (r: Vec<(String, String)>)
        ensures
            text_pairs(r@) == self.settings.defines(),
    {
        let mut out: Vec<(String, String)> = Vec::new();
        let mut i: usize = 0;
        assert(text_pairs(out@) =~= self.settings.defines_upto(0));
        while i < OPTION_COUNT
            invariant
                i <= OPTION_COUNT,
                text_pairs(out@) == self.settings.defines_upto(i as nat),
            decreases OPTION_COUNT - i,
        {
            match OptionId::at(i) {
                Some(id) => {
                    match self.settings.value_of(id) {
                        Some(value) => {
                            let pair = Self::setting_key_value(id.key(), &value);
                            proof {
                                text_pairs_push(out@, pair);
                            }
                            out.push(pair);
                        },
                        None => {},
                    }
                },
                None => {},
            }
            i = i + 1;
        }
        out
    }
}

} // verus!
