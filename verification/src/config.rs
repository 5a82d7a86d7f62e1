//! The configuration of a run.

use vstd::prelude::*;
use std::sync::Arc;
use vstd::string::StringExecFns;
use crate::path::SyncPath;

verus! {

/// A predicate on source paths that the caller supplies. It is shared between
/// the workers and may be called from all of them at once.
///
/// The predicate is the caller's code: the library calls it and believes
/// nothing of what it answers. It is held as a trait object of `Fn`, `Send`
/// and `Sync` in an `Arc` of std, which Verus does not read: the holder is
/// opaque to the proofs.
#[verifier::external_body]
pub struct PathFilter {
    inner: Arc<dyn Fn(&SyncPath) -> bool + Send + Sync>,
}

impl PathFilter {
    /// `Arc::new` of std around the caller's predicate. Nothing is claimed of
    /// the holder.
    #[verifier::external_body]
    fn new<F: Fn(&SyncPath) -> bool + 'static + Send + Sync>(f: F) -> (r: PathFilter) {
        PathFilter { inner: Arc::new(f) }
    }

    /// `Fn::call` of std on the predicate in the `Arc`: asks the caller's
    /// code about `path`. The answer is whatever that code gives.
    #[verifier::external_body]
    fn accepts(&self, path: &SyncPath) -> (r: bool) {
        (self.inner)(path)
    }

    /// `Arc::clone` of std: another handle on the same predicate, which the
    /// proofs take for the same value.
    #[verifier::external_body]
    fn share(&self) -> (r: PathFilter)
        ensures
            r == *self,
    {
        PathFilter { inner: self.inner.clone() }
    }
}

/// The mathematical value of a [`SyncBuilder`].
pub struct ConfigModel {
    pub parallel_copies: u8,
    pub copy_contents_if_date_mismatched: bool,
    pub copy_contents_if_size_mismatched: bool,
    pub copy_contents_if_start_end_mismatched_size: u32,
    pub copy_contents_if_contents_mismatched: bool,
    pub copy_created_date: bool,
    pub copy_modified_date: bool,
    pub directories: Seq<(Seq<char>, Seq<char>)>,
    pub filter: Option<PathFilter>,
}

/// The configuration that [`SyncBuilder::new`] starts from.
pub open spec fn default_config() -> ConfigModel {
    ConfigModel {
        parallel_copies: 1,
        copy_contents_if_date_mismatched: false,
        copy_contents_if_size_mismatched: true,
        copy_contents_if_start_end_mismatched_size: 8192,
        copy_contents_if_contents_mismatched: false,
        copy_created_date: true,
        copy_modified_date: true,
        directories: Seq::empty(),
        filter: None,
    }
}

/// The pairs held by a sequence of pairs of strings.
pub open spec fn pair_views(pairs: Seq<(String, String)>) -> Seq<(Seq<char>, Seq<char>)> {
    Seq::new(pairs.len(), |i: int| (pairs[i].0@, pairs[i].1@))
}

/// The text of one decimal digit.
pub open spec fn digit_text(digit: int) -> Seq<char> {
    if digit == 0 {
        "0"@
    } else if digit == 1 {
        "1"@
    } else if digit == 2 {
        "2"@
    } else if digit == 3 {
        "3"@
    } else if digit == 4 {
        "4"@
    } else if digit == 5 {
        "5"@
    } else if digit == 6 {
        "6"@
    } else if digit == 7 {
        "7"@
    } else if digit == 8 {
        "8"@
    } else {
        "9"@
    }
}

/// A number in decimal, without leading zeros.
pub open spec fn decimal_text(n: nat) -> Seq<char>
    decreases n,
{
    if n < 10 {
        digit_text(n as int)
    } else {
        decimal_text(n / 10) + digit_text((n % 10) as int)
    }
}

/// `true` or `false`.
pub open spec fn bool_text(b: bool) -> Seq<char> {
    if b {
        "true"@
    } else {
        "false"@
    }
}

/// The first `count` pairs of directories, each in brackets and quotes, with
/// commas between them.
pub open spec fn pairs_text(pairs: Seq<(Seq<char>, Seq<char>)>, count: nat) -> Seq<char>
    decreases count,
{
    if count == 0 {
        Seq::empty()
    } else {
        let pair = pairs[count - 1];
        pairs_text(pairs, (count - 1) as nat) + (if count > 1 {
            ", "@
        } else {
            Seq::empty()
        }) + "(\""@ + pair.0 + "\", \""@ + pair.1 + "\")"@
    }
}

/// The text that describes a configuration: the name of each setting and its
/// value, in the order of their declaration. Of the filter it says only
/// whether there is one.
pub open spec fn config_text(config: ConfigModel) -> Seq<char> {
    "SyncBuilder { parallel_copies: "@ + decimal_text(config.parallel_copies as nat)
        + ", copy_contents_if_date_mismatched: "@ + bool_text(
        config.copy_contents_if_date_mismatched,
    ) + ", copy_contents_if_size_mismatched: "@ + bool_text(
        config.copy_contents_if_size_mismatched,
    ) + ", copy_contents_if_start_end_mismatched_size: "@ + decimal_text(
        config.copy_contents_if_start_end_mismatched_size as nat,
    ) + ", copy_contents_if_contents_mismatched: "@ + bool_text(
        config.copy_contents_if_contents_mismatched,
    ) + ", copy_created_date: "@ + bool_text(config.copy_created_date)
        + ", copy_modified_date: "@ + bool_text(config.copy_modified_date) + ", directories: ["@
        + pairs_text(config.directories, config.directories.len()) + "], filter: "@ + (
    if config.filter is Some {
        "Some(\"closure\")"@
    } else {
        "None"@
    }) + " }"@
}

/// Writes a number in decimal behind `text`.
fn append_decimal(text: &mut String, n: u32)
    ensures
        final(text)@ == old(text)@ + decimal_text(n as nat),
    decreases n,
{
    if n >= 10 {
        append_decimal(text, n / 10);
    }
    let digit = n % 10;
    text.append(
        if digit == 0 {
            "0"
        } else if digit == 1 {
            "1"
        } else if digit == 2 {
            "2"
        } else if digit == 3 {
            "3"
        } else if digit == 4 {
            "4"
        } else if digit == 5 {
            "5"
        } else if digit == 6 {
            "6"
        } else if digit == 7 {
            "7"
        } else if digit == 8 {
            "8"
        } else {
            "9"
        },
    );
    assert(final(text)@ =~= old(text)@ + decimal_text(n as nat));
}

/// Writes `true` or `false` behind `text`.
fn append_bool(text: &mut String, b: bool)
    ensures
        final(text)@ == old(text)@ + bool_text(b),
{
    text.append(if b {
        "true"
    } else {
        "false"
    });
}

/// The configuration of a run: which directories to mirror, with how many
/// workers, and when a file counts as changed.
pub struct SyncBuilder {
    parallel_copies: u8,
    copy_contents_if_date_mismatched: bool,
    copy_contents_if_size_mismatched: bool,
    copy_contents_if_start_end_mismatched_size: u32,
    copy_contents_if_contents_mismatched: bool,
    copy_created_date: bool,
    copy_modified_date: bool,
    directories: Vec<(String, String)>,
    filter: Option<PathFilter>,
}

impl View for SyncBuilder {
    type V = ConfigModel;

    closed spec fn view(&self) -> ConfigModel {
        ConfigModel {
            parallel_copies: self.parallel_copies,
            copy_contents_if_date_mismatched: self.copy_contents_if_date_mismatched,
            copy_contents_if_size_mismatched: self.copy_contents_if_size_mismatched,
            copy_contents_if_start_end_mismatched_size: self.copy_contents_if_start_end_mismatched_size,
            copy_contents_if_contents_mismatched: self.copy_contents_if_contents_mismatched,
            copy_created_date: self.copy_created_date,
            copy_modified_date: self.copy_modified_date,
            directories: pair_views(self.directories@),
            filter: self.filter,
        }
    }
}

impl SyncBuilder {
    #[verifier::type_invariant]
    spec fn has_a_worker(self) -> bool {
        self.parallel_copies >= 1
    }

    /// The default configuration: one worker, copy on a size mismatch or on
    /// a mismatch in the first or last 8192 bytes, no directories, no filter.
    pub fn new() -> (r: Self)
        ensures
            r@ == default_config(),
    {
        let r = SyncBuilder {
            parallel_copies: 1,
            copy_contents_if_date_mismatched: false,
            copy_contents_if_size_mismatched: true,
            copy_contents_if_start_end_mismatched_size: 8 * 1024,
            copy_contents_if_contents_mismatched: false,
            copy_created_date: true,
            copy_modified_date: true,
            directories: Vec::new(),
            filter: None,
        };
        assert(pair_views(r.directories@) =~= Seq::empty());
        r
    }

    /// Sets the number of workers.
    pub fn parallel_copies(&mut self, value: u8) -> (ret: &mut Self)
        requires
            value >= 1,
        ensures
            ret@ == (ConfigModel { parallel_copies: value, ..old(self)@ }),
            *final(self) == *final(ret),
    {
        self.parallel_copies = value;
        self
    }

    /// Sets whether a file is copied when the modified times differ.
    pub fn copy_contents_if_date_mismatched(&mut self, value: bool) -> (ret: &mut Self)
        ensures
            ret@ == (ConfigModel { copy_contents_if_date_mismatched: value, ..old(self)@ }),
            *final(self) == *final(ret),
    {
        proof {
            use_type_invariant(&*self);
        }
        self.copy_contents_if_date_mismatched = value;
        self
    }

    /// Sets whether a file is copied when the sizes differ.
    pub fn copy_contents_if_size_mismatched(&mut self, value: bool) -> (ret: &mut Self)
        ensures
            ret@ == (ConfigModel { copy_contents_if_size_mismatched: value, ..old(self)@ }),
            *final(self) == *final(ret),
    {
        proof {
            use_type_invariant(&*self);
        }
        self.copy_contents_if_size_mismatched = value;
        self
    }

    /// Sets how many bytes at the start and at the end of two files are compared;
    /// zero turns the comparison off.
    pub fn copy_contents_if_start_end_mismatched_size(&mut self, value: u32) -> (ret: &mut Self)
        ensures
            ret@ == (ConfigModel { copy_contents_if_start_end_mismatched_size: value, ..old(self)@ }),
            *final(self) == *final(ret),
    {
        proof {
            use_type_invariant(&*self);
        }
        self.copy_contents_if_start_end_mismatched_size = value;
        self
    }

    /// Sets whether whole contents are compared. No decision reads this yet.
    pub fn copy_contents_if_contents_mismatched(&mut self, value: bool) -> (ret: &mut Self)
        ensures
            ret@ == (ConfigModel { copy_contents_if_contents_mismatched: value, ..old(self)@ }),
            *final(self) == *final(ret),
    {
        proof {
            use_type_invariant(&*self);
        }
        self.copy_contents_if_contents_mismatched = value;
        self
    }

    /// Sets whether a copy gets the created time of its source.
    pub fn copy_created_date(&mut self, value: bool) -> (ret: &mut Self)
        ensures
            ret@ == (ConfigModel { copy_created_date: value, ..old(self)@ }),
            *final(self) == *final(ret),
    {
        proof {
            use_type_invariant(&*self);
        }
        self.copy_created_date = value;
        self
    }

    /// Sets whether a copy gets the modified time of its source.
    pub fn copy_modified_date(&mut self, value: bool) -> (ret: &mut Self)
        ensures
            ret@ == (ConfigModel { copy_modified_date: value, ..old(self)@ }),
            *final(self) == *final(ret),
    {
        proof {
            use_type_invariant(&*self);
        }
        self.copy_modified_date = value;
        self
    }

    /// Adds a source directory and the destination that is to mirror it.
    pub fn add_directory_pair(&mut self, src: String, dest: String) -> (ret: &mut Self)
        ensures
            ret@ == (ConfigModel {
                directories: old(self)@.directories.push((src@, dest@)),
                ..old(self)@
            }),
            *final(self) == *final(ret),
    {
        proof {
            use_type_invariant(&*self);
        }
        let mut directories: Vec<(String, String)> = Vec::new();
        std::mem::swap(&mut self.directories, &mut directories);
        directories.push((src, dest));
        self.directories = directories;
        assert(pair_views(self.directories@) =~= pair_views(old(self).directories@).push(
            (src@, dest@),
        ));
        self
    }

    /// Sets the filter. It is asked about each file and directory of the
    /// source before anything is done with it. Where it answers `false` the
    /// entry is treated as if the source did not have it: it is not copied, and
    /// what the destination holds under its name is deleted.
    pub fn filter<F: Fn(&SyncPath) -> bool + 'static + Send + Sync>(&mut self, f: F) -> (ret:
        &mut Self)
        ensures
            ret@.filter is Some,
            ret@ == (ConfigModel { filter: ret@.filter, ..old(self)@ }),
            *final(self) == *final(ret),
    {
        proof {
            use_type_invariant(&*self);
        }
        self.filter = Some(PathFilter::new(f));
        self
    }

    /// Describes the configuration in words, for a log or a debugger.
    pub fn describe(&self) -> (text: String)
        ensures
            text@ == config_text(self@),
    {
        let mut text = String::from_str("SyncBuilder { parallel_copies: ");
        append_decimal(&mut text, self.parallel_copies as u32);
        text.append(", copy_contents_if_date_mismatched: ");
        append_bool(&mut text, self.copy_contents_if_date_mismatched);
        text.append(", copy_contents_if_size_mismatched: ");
        append_bool(&mut text, self.copy_contents_if_size_mismatched);
        text.append(", copy_contents_if_start_end_mismatched_size: ");
        append_decimal(&mut text, self.copy_contents_if_start_end_mismatched_size);
        text.append(", copy_contents_if_contents_mismatched: ");
        append_bool(&mut text, self.copy_contents_if_contents_mismatched);
        text.append(", copy_created_date: ");
        append_bool(&mut text, self.copy_created_date);
        text.append(", copy_modified_date: ");
        append_bool(&mut text, self.copy_modified_date);
        text.append(", directories: [");
        let ghost head = text@;
        let ghost pairs = pair_views(self.directories@);
        let mut i: usize = 0;
        while i < self.directories.len()
            invariant
                i <= self.directories.len(),
                pairs == pair_views(self.directories@),
                text@ == head + pairs_text(pairs, i as nat),
            decreases self.directories.len() - i,
        {
            let ghost before = text@;
            if i > 0 {
                text.append(", ");
            }
            text.append("(\"");
            text.append(self.directories[i].0.as_str());
            text.append("\", \"");
            text.append(self.directories[i].1.as_str());
            text.append("\")");
            i = i + 1;
            assert(text@ =~= head + pairs_text(pairs, i as nat));
        }
        text.append("], filter: ");
        text.append(
            if self.filter.is_some() {
                "Some(\"closure\")"
            } else {
                "None"
            },
        );
        text.append(" }");
        assert(text@ =~= config_text(self@));
        text
    }

    /// The number of workers, which is at least one.
    pub fn worker_count(&self) -> (r: u8)
        ensures
            r == self@.parallel_copies,
            r >= 1,
    {
        proof {
            use_type_invariant(self);
        }
        self.parallel_copies
    }

    /// Whether a file is copied when the modified times differ.
    pub fn checks_date(&self) -> (r: bool)
        ensures
            r == self@.copy_contents_if_date_mismatched,
    {
        self.copy_contents_if_date_mismatched
    }

    /// Whether a file is copied when the sizes differ.
    pub fn checks_size(&self) -> (r: bool)
        ensures
            r == self@.copy_contents_if_size_mismatched,
    {
        self.copy_contents_if_size_mismatched
    }

    /// How many bytes at the start and at the end of two files are compared.
    pub fn head_tail_bytes(&self) -> (r: u32)
        ensures
            r == self@.copy_contents_if_start_end_mismatched_size,
    {
        self.copy_contents_if_start_end_mismatched_size
    }

    /// Whether whole contents are to be compared.
    pub fn checks_contents(&self) -> (r: bool)
        ensures
            r == self@.copy_contents_if_contents_mismatched,
    {
        self.copy_contents_if_contents_mismatched
    }

    /// Whether a copy gets the created time of its source.
    pub fn stamps_created(&self) -> (r: bool)
        ensures
            r == self@.copy_created_date,
    {
        self.copy_created_date
    }

    /// Whether a copy gets the modified time of its source.
    pub fn stamps_modified(&self) -> (r: bool)
        ensures
            r == self@.copy_modified_date,
    {
        self.copy_modified_date
    }

    /// The configured pairs of directories, in the order in which they were
    /// added.
    pub fn directory_pairs(&self) -> (r: &Vec<(String, String)>)
        ensures
            pair_views(r@) == self@.directories,
    {
        &self.directories
    }

    /// Whether the filter lets `path` through. Without a filter everything
    /// passes; with one, the filter is asked about `path` and the answer is
    /// its own, of which nothing is promised.
    pub fn passes(&self, path: &SyncPath) -> (r: bool)
        ensures
            self@.filter is None ==> r,
    {
        match &self.filter {
            None => true,
            Some(filter) => filter.accepts(path),
        }
    }
}

impl Clone for SyncBuilder {
    fn clone(&self) -> (r: Self)
        ensures
            r@ == self@,
    {
        proof {
            use_type_invariant(self);
        }
        let mut directories: Vec<(String, String)> = Vec::new();
        let mut i: usize = 0;
        while i < self.directories.len()
            invariant
                i <= self.directories.len(),
                directories@.len() == i,
                forall|j: int|
                    0 <= j < i ==> directories@[j].0@ == self.directories@[j].0@
                        && directories@[j].1@ == self.directories@[j].1@,
            decreases self.directories.len() - i,
        {
            let pair = &self.directories[i];
            directories.push((pair.0.clone(), pair.1.clone()));
            i = i + 1;
        }
        assert(pair_views(directories@) =~= pair_views(self.directories@));
        let filter = match &self.filter {
            None => None,
            Some(f) => Some(f.share()),
        };
        SyncBuilder {
            parallel_copies: self.parallel_copies,
            copy_contents_if_date_mismatched: self.copy_contents_if_date_mismatched,
            copy_contents_if_size_mismatched: self.copy_contents_if_size_mismatched,
            copy_contents_if_start_end_mismatched_size: self.copy_contents_if_start_end_mismatched_size,
            copy_contents_if_contents_mismatched: self.copy_contents_if_contents_mismatched,
            copy_created_date: self.copy_created_date,
            copy_modified_date: self.copy_modified_date,
            directories,
            filter,
        }
    }
}

} // verus!
