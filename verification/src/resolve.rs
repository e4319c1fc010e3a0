//! The source resolver: which of the candidate paths (each source root joined
//! with the relative source) take part in provisioning, and the error
//! taxonomy for the stages around it.

use vstd::prelude::*;

verus! {

/// Why provisioning of one desired-state entry stopped before (or while)
/// reconciling.
#[derive(Debug)]
pub enum ProvisionError {
    /// No source root contains the relative source.
    NotFound { source: String },
    /// A matching source directory lacks list permission.
    NotListable { path: String },
    /// A walked entry was not prefixed by its claimed root.
    PathPrefix,
}

impl ProvisionError {
    pub open spec fn spec_message(&self) -> Seq<char> {
        match self {
            ProvisionError::NotFound { source } => source@ + ": does not exist"@,
            ProvisionError::NotListable { path } => path@ + ": is not listable"@,
            ProvisionError::PathPrefix => "prefix not found"@,
        }
    }

    /// The diagnostic line reported for this failure.
    pub fn message(&self) -> (r: String)
        ensures
            r@ == self.spec_message(),
    {
        match self {
            ProvisionError::NotFound { source } => {
                let mut m = source.clone();
                m.append(": does not exist");
                m
            },
            ProvisionError::NotListable { path } => {
                let mut m = path.clone();
                m.append(": is not listable");
                m
            },
            ProvisionError::PathPrefix => String::from_str("prefix not found"),
        }
    }
}

/// One source root joined with the relative source, with the results of the
/// read-only filesystem probes on it.
pub struct RootCandidate {
    pub path: String,
    pub exists: bool,
    pub is_dir: bool,
    pub listable: bool,
}

#[verifier::ext_equal]
pub struct RootCandidateView {
    pub path: Seq<char>,
    pub exists: bool,
    pub is_dir: bool,
    pub listable: bool,
}

impl View for RootCandidate {
    type V = RootCandidateView;

    open spec fn view(&self) -> RootCandidateView {
        RootCandidateView {
            path: self.path@,
            exists: self.exists,
            is_dir: self.is_dir,
            listable: self.listable,
        }
    }
}

impl DeepView for RootCandidate {
    type V = RootCandidateView;

    open spec fn deep_view(&self) -> RootCandidateView {
        self@
    }
}

/// The paths of the candidates that exist, in root (priority) order.
pub open spec fn spec_existing_paths(cs: Seq<RootCandidateView>) -> Seq<Seq<char>>
    decreases cs.len(),
{
    if cs.len() == 0 {
        Seq::<Seq<char>>::empty()
    } else {
        let pre = spec_existing_paths(cs.drop_last());
        if cs.last().exists {
            pre.push(cs.last().path)
        } else {
            pre
        }
    }
}

/// A candidate that exists, is a directory, and cannot be listed.
pub open spec fn spec_unlistable(c: RootCandidateView) -> bool {
    c.exists && c.is_dir && !c.listable
}

/// No source root contains the relative source.
pub open spec fn spec_no_source_exists(cs: Seq<RootCandidateView>) -> bool {
    forall|i: int| 0 <= i < cs.len() ==> !cs[i].exists
}

/// Candidate `i` is the first one, in priority order, that cannot be listed.
pub open spec fn spec_unlistable_at(cs: Seq<RootCandidateView>, i: int) -> bool {
    &&& 0 <= i < cs.len()
    &&& spec_unlistable(cs[i])
    &&& forall|j: int| 0 <= j < i ==> !spec_unlistable(cs[j])
}

proof fn lemma_existing_paths_empty(cs: Seq<RootCandidateView>)
    ensures
        (spec_existing_paths(cs).len() == 0) <==> (forall|i: int|
            0 <= i < cs.len() ==> !cs[i].exists),
    decreases cs.len(),
{
    if cs.len() > 0 {
        lemma_existing_paths_empty(cs.drop_last());
        assert(forall|i: int| 0 <= i < cs.len() - 1 ==> cs.drop_last()[i] == cs[i]);
    }
}

/// Keep every candidate that exists, in priority order; fail with `NotFound`
/// if none exists, and with `NotListable` on the first existing directory
/// candidate the process cannot list.
pub fn resolve_sources(source: &str, candidates: &Vec<RootCandidate>) -> (r: Result<
    Vec<String>,
    ProvisionError,
>)
    ensures
        match r {
            Ok(found) => {
                &&& found.deep_view() == spec_existing_paths(candidates.deep_view())
                &&& found.len() > 0
                &&& forall|i: int|
                    0 <= i < candidates.len() ==> !spec_unlistable(candidates.deep_view()[i])
            },
            Err(e) => match e {
                ProvisionError::NotFound { source: s } => {
                    &&& s@ == source@
                    &&& spec_no_source_exists(candidates.deep_view())
                },
                ProvisionError::NotListable { path } => exists|i: int|
                    {
                        &&& #[trigger] spec_unlistable_at(candidates.deep_view(), i)
                        &&& path@ == candidates.deep_view()[i].path
                    },
                ProvisionError::PathPrefix => false,
            },
        },
{
    let ghost cv = candidates.deep_view();
    let n = candidates.len();
    let mut found: Vec<String> = Vec::new();
    let mut i: usize = 0;
    while i < n
        invariant
            i <= n,
            n == candidates.len(),
            cv == candidates.deep_view(),
            found.deep_view() == spec_existing_paths(cv.take(i as int)),
        decreases n - i,
    {
        if candidates[i].exists {
            found.push(candidates[i].path.clone());
        }
        proof {
            assert(cv.take(i as int + 1).drop_last() =~= cv.take(i as int));
            assert(cv.take(i as int + 1).last() == cv[i as int]);
            if cv[i as int].exists {
                assert(found.deep_view() =~= spec_existing_paths(cv.take(i as int)).push(
                    cv[i as int].path,
                ));
            }
        }
        i = i + 1;
    }
    proof {
        assert(cv.take(n as int) =~= cv);
    }
    if found.len() == 0 {
        proof {
            lemma_existing_paths_empty(cv);
        }
        return Err(ProvisionError::NotFound { source: source.to_owned() });
    }
    let mut j: usize = 0;
    while j < n
        invariant
            j <= n,
            n == candidates.len(),
            cv == candidates.deep_view(),
            forall|k: int| 0 <= k < j ==> !spec_unlistable(cv[k]),
        decreases n - j,
    {
        if candidates[j].exists && candidates[j].is_dir && !candidates[j].listable {
            proof {
                assert(spec_unlistable_at(cv, j as int));
            }
            return Err(ProvisionError::NotListable { path: candidates[j].path.clone() });
        }
        j = j + 1;
    }
    Ok(found)
}

} // verus!
