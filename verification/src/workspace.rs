use crate::category::TargetKind;
use crate::text::line_safe;
use vstd::prelude::*;

verus! {

/// One named buildable unit of the workspace, reduced to what the query
/// pipeline reads: its display name and its kind classification.
pub struct TargetInfo {
    pub name: String,
    pub kind: TargetKind,
}

/// The mathematical value of a `TargetInfo`.
pub struct TargetModel {
    pub name: Seq<char>,
    pub kind: TargetKind,
}

impl View for TargetInfo {
    type V = TargetModel;

    open spec fn view(&self) -> TargetModel {
        TargetModel { name: self.name@, kind: self.kind }
    }
}

/// The read-only workspace metadata one invocation works from: every build
/// target in discovery order, and every configured profile name in discovery
/// order.
pub struct WorkspaceInfo {
    pub targets: Vec<TargetInfo>,
    pub profiles: Vec<String>,
}

/// The mathematical value of a `WorkspaceInfo`.
pub struct WorkspaceModel {
    pub targets: Seq<TargetModel>,
    pub profiles: Seq<Seq<char>>,
}

impl View for WorkspaceInfo {
    type V = WorkspaceModel;

    open spec fn view(&self) -> WorkspaceModel {
        WorkspaceModel {
            targets: Seq::new(self.targets@.len(), |i: int| self.targets@[i]@),
            profiles: self.profiles.deep_view(),
        }
    }
}

impl WorkspaceModel {
    /// Every display name the workspace offers is a single line: the
    /// candidate list is handed to a line-oriented picker, so an embedded
    /// newline in a name would corrupt it.
    pub open spec fn line_safe_names(self) -> bool {
        &&& forall|i: int| 0 <= i < self.targets.len() ==> line_safe(#[trigger] self.targets[i].name)
        &&& forall|i: int| 0 <= i < self.profiles.len() ==> line_safe(#[trigger] self.profiles[i])
    }
}

impl WorkspaceInfo {
    /// Runtime test of `line_safe_names`, for callers that assemble a
    /// workspace from unchecked metadata.
    pub fn names_are_line_safe(&self) -> (r: bool)
        ensures
            r == self@.line_safe_names(),
    {
        let mut i: usize = 0;
        while i < self.targets.len()
            invariant
                0 <= i <= self.targets.len(),
                self@.targets.len() == self.targets.len(),
                forall|j: int| 0 <= j < i ==> line_safe(#[trigger] self@.targets[j].name),
            decreases self.targets.len() - i,
        {
            if !crate::text::is_line_safe(self.targets[i].name.as_str()) {
                proof {
                    assert(!line_safe(self@.targets[i as int].name));
                }
                return false;
            }
            i += 1;
        }
        let mut k: usize = 0;
        while k < self.profiles.len()
            invariant
                0 <= k <= self.profiles.len(),
                self@.profiles.len() == self.profiles.len(),
                forall|j: int| 0 <= j < k ==> line_safe(#[trigger] self@.profiles[j]),
                forall|j: int|
                    0 <= j < self@.targets.len() ==> line_safe(#[trigger] self@.targets[j].name),
            decreases self.profiles.len() - k,
        {
            if !crate::text::is_line_safe(self.profiles[k].as_str()) {
                proof {
                    assert(!line_safe(self@.profiles[k as int]));
                }
                return false;
            }
            k += 1;
        }
        true
    }
}

} // verus!
