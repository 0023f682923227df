//! The registry of live sandboxes and the records that the service
//! answers with.

use crate::error::Error;
use crate::jailer::same_text;
use crate::sandbox::{Location, Sandbox};
use crate::text::concat2;
use vstd::prelude::*;
use vstd::string::StringExecFns;

verus! {

/// The program that runs a sandbox's code.
pub const ENTRYPOINT_COMMAND: &'static str = "python3";

/// The file of a sandbox's code that is run.
pub const ENTRYPOINT_PATH: &'static str = "/tmp/vdb/entrypoint.py";

/// The status that every failed request is answered with.
pub const INTERNAL_SERVER_ERROR: u16 = 500;

/// What the service tells about one sandbox.
#[derive(Debug)]
pub struct SandboxResponse {
    pub id: String,
    pub ip: String,
}

/// What a [`SandboxResponse`] holds.
pub struct SandboxResponseView {
    pub id: Seq<char>,
    pub ip: Seq<char>,
}

impl View for SandboxResponse {
    type V = SandboxResponseView;

    open spec fn view(&self) -> SandboxResponseView {
        SandboxResponseView { id: self.id@, ip: self.ip@ }
    }
}

/// The record of a sandbox: its identifier and the address under which its
/// guest is reached.
pub open spec fn spec_response(sandbox: Sandbox) -> SandboxResponseView {
    SandboxResponseView { id: sandbox.spec_id(), ip: sandbox.spec_ip() }
}

impl SandboxResponse {
    /// The record of a sandbox.
    pub fn from(value: &Sandbox) -> (response: SandboxResponse)
        ensures
            response@ == spec_response(*value),
    {
        SandboxResponse { id: String::from_str(value.id()), ip: value.network().microvm_ip() }
    }
}

/// The answer to a request for all sandboxes.
#[derive(Debug)]
pub struct ListSandboxesResponse {
    pub sandboxes: Vec<SandboxResponse>,
}

/// The records of a list of responses.
pub open spec fn response_views(responses: Seq<SandboxResponse>) -> Seq<SandboxResponseView> {
    Seq::new(responses.len(), |i: int| responses[i]@)
}

/// The body of a request for a new sandbox.
#[derive(Debug)]
pub struct CreateSandboxRequest {
    pub code_drive_path: Option<Location>,
}

/// The answer to a request to run a sandbox's code.
#[derive(Debug)]
pub struct ExecuteResponse {
    pub output: String,
}

/// A command for the guest's agent to run.
#[derive(Debug)]
pub struct GuestCommand {
    pub command: String,
    pub arguments: Vec<String>,
}

/// The answer to a request that failed.
#[derive(Debug)]
pub struct ApiError {
    pub message: String,
}

impl ApiError {
    /// The answer for the given error.
    pub fn from(error: Error) -> (answer: ApiError)
        ensures
            answer.message@ == error.spec_describe(),
    {
        ApiError { message: error.describe() }
    }

    /// The status of the answer.
    pub fn status(&self) -> (code: u16)
        ensures
            code == INTERNAL_SERVER_ERROR,
    {
        INTERNAL_SERVER_ERROR
    }

    /// The text of the answer.
    pub fn body(&self) -> (text: String)
        ensures
            text@ == "Something went wrong: "@ + self.message@,
    {
        concat2("Something went wrong: ", self.message.as_str())
    }
}

/// Whether `listing` tells of exactly the sandboxes of `sandboxes`, once
/// each.
pub open spec fn is_listing_of(
    listing: Seq<SandboxResponseView>,
    sandboxes: Map<Seq<char>, Sandbox>,
) -> bool {
    &&& forall|i: int|
        0 <= i < listing.len() ==> sandboxes.dom().contains((#[trigger] listing[i]).id)
            && listing[i] == spec_response(sandboxes[listing[i].id])
    &&& forall|i: int, j: int|
        0 <= i < j < listing.len() ==> (#[trigger] listing[i]).id != (#[trigger] listing[j]).id
    &&& forall|id: Seq<char>|
        sandboxes.dom().contains(id) ==> exists|i: int|
            0 <= i < listing.len() && (#[trigger] listing[i]).id == id
}

/// The answer to a request to delete the sandbox `id`: its record, or that
/// there is none.
pub open spec fn spec_delete(sandboxes: Map<Seq<char>, Sandbox>, id: Seq<char>) -> Result<
    SandboxResponseView,
    Error,
> {
    if sandboxes.dom().contains(id) {
        Ok(spec_response(sandboxes[id]))
    } else {
        Err(Error::NotFound)
    }
}

/// The live sandboxes, each under the text of its identifier.
#[derive(Debug)]
pub struct Registry {
    sandboxes: Vec<Sandbox>,
}

impl Registry {
    /// Whether no two sandboxes share an identifier.
    pub closed spec fn wf(&self) -> bool {
        forall|i: int, j: int|
            0 <= i < j < self.sandboxes@.len() ==> (#[trigger] self.sandboxes@[i]).spec_id() != (
            #[trigger] self.sandboxes@[j]).spec_id()
    }

    spec fn holds(&self, id: Seq<char>) -> bool {
        exists|i: int| 0 <= i < self.sandboxes@.len() && (#[trigger] self.sandboxes@[i]).spec_id() == id
    }

    spec fn index_of(&self, id: Seq<char>) -> int {
        choose|i: int| 0 <= i < self.sandboxes@.len() && (#[trigger] self.sandboxes@[i]).spec_id() == id
    }

    /// The sandboxes by the text of their identifiers.
    pub closed spec fn spec_map(&self) -> Map<Seq<char>, Sandbox> {
        Map::new(|id: Seq<char>| self.holds(id), |id: Seq<char>| self.sandboxes@[self.index_of(id)])
    }

    proof fn lemma_index(&self, i: int)
        requires
            self.wf(),
            0 <= i < self.sandboxes@.len(),
        ensures
            self.holds(self.sandboxes@[i].spec_id()),
            self.index_of(self.sandboxes@[i].spec_id()) == i,
            self.spec_map().dom().contains(self.sandboxes@[i].spec_id()),
            self.spec_map()[self.sandboxes@[i].spec_id()] == self.sandboxes@[i],
    {
        let id = self.sandboxes@[i].spec_id();
        let k = self.index_of(id);
        assert(0 <= k < self.sandboxes@.len() && self.sandboxes@[k].spec_id() == id);
        if k < i {
            assert(self.sandboxes@[k].spec_id() != self.sandboxes@[i].spec_id());
        }
        if i < k {
            assert(self.sandboxes@[i].spec_id() != self.sandboxes@[k].spec_id());
        }
    }

    /// The registry without sandboxes.
    pub fn new() -> (registry: Registry)
        ensures
            registry.wf(),
            registry.spec_map() == Map::<Seq<char>, Sandbox>::empty(),
    {
        let registry = Registry { sandboxes: Vec::new() };
        assert(registry.spec_map() =~= Map::<Seq<char>, Sandbox>::empty());
        registry
    }

    /// Where the sandbox `id` stands.
    fn position(&self, id: &str) -> (found: Option<usize>)
        requires
            self.wf(),
        ensures
            match found {
                Some(i) => i < self.sandboxes@.len() && self.sandboxes@[i as int].spec_id() == id@
                    && self.spec_map().dom().contains(id@) && self.spec_map()[id@]
                    == self.sandboxes@[i as int],
                None => !self.spec_map().dom().contains(id@) && forall|i: int|
                    0 <= i < self.sandboxes@.len() ==> (#[trigger] self.sandboxes@[i]).spec_id()
                        != id@,
            },
    {
        let mut i: usize = 0;
        while i < self.sandboxes.len()
            invariant
                self.wf(),
                i <= self.sandboxes@.len(),
                forall|j: int| 0 <= j < i ==> (#[trigger] self.sandboxes@[j]).spec_id() != id@,
            decreases self.sandboxes.len() - i,
        {
            if same_text(self.sandboxes[i].id(), id) {
                proof {
                    self.lemma_index(i as int);
                }
                return Some(i);
            }
            i += 1;
        }
        None
    }

    /// The sandbox `id`, if there is one.
    pub fn get(&self, id: &str) -> (found: Option<&Sandbox>)
        requires
            self.wf(),
        ensures
            match found {
                Some(sandbox) => self.spec_map().dom().contains(id@) && *sandbox
                    == self.spec_map()[id@],
                None => !self.spec_map().dom().contains(id@),
            },
    {
        match self.position(id) {
            Some(i) => Some(&self.sandboxes[i]),
            None => None,
        }
    }

    /// Takes the sandbox `id` out, if there is one.
    pub fn remove(&mut self, id: &str) -> (removed: Option<Sandbox>)
        requires
            old(self).wf(),
        ensures
            final(self).wf(),
            final(self).spec_map() == old(self).spec_map().remove(id@),
            match removed {
                Some(sandbox) => old(self).spec_map().dom().contains(id@) && sandbox == old(
                    self,
                ).spec_map()[id@],
                None => !old(self).spec_map().dom().contains(id@),
            },
    {
        match self.position(id) {
            Some(i) => {
                let sandbox = self.sandboxes.remove(i);
                proof {
                    let before = *old(self);
                    let after = *self;
                    assert(after.wf()) by {
                        assert forall|a: int, b: int|
                            0 <= a < b < after.sandboxes@.len() implies (
                        #[trigger] after.sandboxes@[a]).spec_id() != (
                        #[trigger] after.sandboxes@[b]).spec_id() by {
                            let a2 = if a < i { a } else { a + 1 };
                            let b2 = if b < i { b } else { b + 1 };
                            assert(after.sandboxes@[a] == before.sandboxes@[a2]);
                            assert(after.sandboxes@[b] == before.sandboxes@[b2]);
                        }
                    }
                    assert(after.spec_map() =~= before.spec_map().remove(id@)) by {
                        assert forall|key: Seq<char>|
                            after.spec_map().dom().contains(key) <==> #[trigger] before.spec_map().remove(
                                id@,
                            ).dom().contains(key) by {
                            if after.holds(key) {
                                let a = after.index_of(key);
                                let a2 = if a < i { a } else { a + 1 };
                                assert(after.sandboxes@[a] == before.sandboxes@[a2]);
                                before.lemma_index(a2);
                                if key == id@ {
                                    before.lemma_index(i as int);
                                }
                            }
                            if before.holds(key) && key != id@ {
                                let b = before.index_of(key);
                                let b2 = if b < i { b } else { b - 1 };
                                assert(after.sandboxes@[b2] == before.sandboxes@[b]);
                            }
                        }
                        assert forall|key: Seq<char>| #[trigger]
                            after.spec_map().dom().contains(key) implies after.spec_map()[key]
                            == before.spec_map().remove(id@)[key] by {
                            let a = after.index_of(key);
                            let a2 = if a < i { a } else { a + 1 };
                            assert(after.sandboxes@[a] == before.sandboxes@[a2]);
                            before.lemma_index(a2);
                        }
                    }
                }
                Some(sandbox)
            },
            None => {
                assert(self.spec_map() =~= old(self).spec_map().remove(id@));
                None
            },
        }
    }

    /// Puts the sandbox in under its identifier, in place of the one that
    /// was there, which is returned.
    pub fn insert(&mut self, sandbox: Sandbox) -> (replaced: Option<Sandbox>)
        requires
            old(self).wf(),
        ensures
            final(self).wf(),
            final(self).spec_map() == old(self).spec_map().insert(sandbox.spec_id(), sandbox),
            match replaced {
                Some(other) => old(self).spec_map().dom().contains(sandbox.spec_id()) && other
                    == old(self).spec_map()[sandbox.spec_id()],
                None => !old(self).spec_map().dom().contains(sandbox.spec_id()),
            },
    {
        let id = String::from_str(sandbox.id());
        let replaced = self.remove(id.as_str());
        let ghost middle = *self;
        self.sandboxes.push(sandbox);
        proof {
            let after = *self;
            let n = middle.sandboxes@.len() as int;
            assert(!middle.spec_map().dom().contains(id@));
            assert forall|j: int| 0 <= j < n implies (#[trigger] middle.sandboxes@[j]).spec_id()
                != id@ by {
                middle.lemma_index(j);
            }
            assert(after.wf()) by {
                assert forall|a: int, b: int|
                    0 <= a < b < after.sandboxes@.len() implies (
                #[trigger] after.sandboxes@[a]).spec_id() != (
                #[trigger] after.sandboxes@[b]).spec_id() by {
                    assert(after.sandboxes@[a] == middle.sandboxes@[a]);
                    if b < n {
                        assert(after.sandboxes@[b] == middle.sandboxes@[b]);
                    }
                }
            }
            assert(after.spec_map() =~= middle.spec_map().insert(id@, sandbox)) by {
                assert forall|key: Seq<char>|
                    after.spec_map().dom().contains(key) <==> #[trigger] middle.spec_map().insert(
                        id@,
                        sandbox,
                    ).dom().contains(key) by {
                    if after.holds(key) {
                        let a = after.index_of(key);
                        if a < n {
                            assert(after.sandboxes@[a] == middle.sandboxes@[a]);
                        }
                    }
                    if middle.holds(key) {
                        let b = middle.index_of(key);
                        assert(after.sandboxes@[b] == middle.sandboxes@[b]);
                    }
                    if key == id@ {
                        assert(after.sandboxes@[n] == sandbox);
                    }
                }
                assert forall|key: Seq<char>| #[trigger]
                    after.spec_map().dom().contains(key) implies after.spec_map()[key]
                    == middle.spec_map().insert(id@, sandbox)[key] by {
                    let a = after.index_of(key);
                    after.lemma_index(a);
                    if a < n {
                        assert(after.sandboxes@[a] == middle.sandboxes@[a]);
                        middle.lemma_index(a);
                    }
                }
            }
            assert(middle.spec_map().insert(id@, sandbox) =~= old(self).spec_map().insert(
                id@,
                sandbox,
            ));
        }
        replaced
    }

    /// The records of all sandboxes.
    pub fn list(&self) -> (listing: ListSandboxesResponse)
        requires
            self.wf(),
        ensures
            is_listing_of(response_views(listing.sandboxes@), self.spec_map()),
    {
        let mut sandboxes: Vec<SandboxResponse> = Vec::new();
        let mut i: usize = 0;
        while i < self.sandboxes.len()
            invariant
                self.wf(),
                i <= self.sandboxes@.len(),
                sandboxes@.len() == i,
                forall|j: int|
                    0 <= j < i ==> (#[trigger] sandboxes@[j])@ == spec_response(self.sandboxes@[j]),
            decreases self.sandboxes.len() - i,
        {
            sandboxes.push(SandboxResponse::from(&self.sandboxes[i]));
            i += 1;
        }
        proof {
            let listing = response_views(sandboxes@);
            assert forall|j: int| 0 <= j < listing.len() implies self.spec_map().dom().contains(
                (#[trigger] listing[j]).id,
            ) && listing[j] == spec_response(self.spec_map()[listing[j].id]) by {
                assert(sandboxes@[j]@ == spec_response(self.sandboxes@[j]));
                self.lemma_index(j);
            }
            assert forall|a: int, b: int| 0 <= a < b < listing.len() implies (
            #[trigger] listing[a]).id != (#[trigger] listing[b]).id by {
                assert(sandboxes@[a]@ == spec_response(self.sandboxes@[a]));
                assert(sandboxes@[b]@ == spec_response(self.sandboxes@[b]));
                assert(self.sandboxes@[a].spec_id() != self.sandboxes@[b].spec_id());
            }
            assert forall|id: Seq<char>| self.spec_map().dom().contains(id) implies exists|j: int|
                0 <= j < listing.len() && (#[trigger] listing[j]).id == id by {
                let k = self.index_of(id);
                assert(sandboxes@[k]@ == spec_response(self.sandboxes@[k]));
                assert(listing[k].id == id);
            }
        }
        ListSandboxesResponse { sandboxes }
    }

    /// Registers a sandbox that was created, and gives its record.
    pub fn create(&mut self, sandbox: Sandbox) -> (response: SandboxResponse)
        requires
            old(self).wf(),
        ensures
            final(self).wf(),
            final(self).spec_map() == old(self).spec_map().insert(sandbox.spec_id(), sandbox),
            response@ == spec_response(sandbox),
    {
        let response = SandboxResponse::from(&sandbox);
        let _ = self.insert(sandbox);
        response
    }

    /// Takes the sandbox `id` out and gives its record together with the
    /// sandbox, which is then to be destroyed. Where there is no such
    /// sandbox the registry stays as it is.
    pub fn delete(&mut self, id: &str) -> (r: Result<(SandboxResponse, Sandbox), Error>)
        requires
            old(self).wf(),
        ensures
            final(self).wf(),
            final(self).spec_map() == old(self).spec_map().remove(id@),
            match r {
                Ok((response, sandbox)) => spec_delete(old(self).spec_map(), id@) == Ok::<
                    SandboxResponseView,
                    Error,
                >(response@) && sandbox == old(self).spec_map()[id@],
                Err(e) => spec_delete(old(self).spec_map(), id@) == Err::<
                    SandboxResponseView,
                    Error,
                >(e),
            },
    {
        match self.remove(id) {
            Some(sandbox) => {
                let response = SandboxResponse::from(&sandbox);
                Ok((response, sandbox))
            },
            None => Err(Error::NotFound),
        }
    }

    /// The command that runs the code of sandbox `id`, or that there is no
    /// such sandbox.
    pub fn execute(&self, id: &str) -> (r: Result<GuestCommand, Error>)
        requires
            self.wf(),
        ensures
            match r {
                Ok(command) => self.spec_map().dom().contains(id@) && command.command@
                    == ENTRYPOINT_COMMAND@ && command.arguments@.len() == 1
                    && command.arguments@[0]@ == ENTRYPOINT_PATH@,
                Err(e) => !self.spec_map().dom().contains(id@) && e == Error::NotFound,
            },
    {
        match self.get(id) {
            Some(_) => {
                let mut arguments: Vec<String> = Vec::new();
                arguments.push(String::from_str(ENTRYPOINT_PATH));
                Ok(GuestCommand { command: String::from_str(ENTRYPOINT_COMMAND), arguments })
            },
            None => Err(Error::NotFound),
        }
    }
}

/// A sandbox that was just created is in every listing made after it.
pub proof fn lemma_created_is_listed(
    before: Map<Seq<char>, Sandbox>,
    sandbox: Sandbox,
    listing: Seq<SandboxResponseView>,
)
    requires
        is_listing_of(listing, before.insert(sandbox.spec_id(), sandbox)),
    ensures
        exists|i: int| 0 <= i < listing.len() && #[trigger] listing[i] == spec_response(sandbox),
{
    let after = before.insert(sandbox.spec_id(), sandbox);
    assert(after.dom().contains(sandbox.spec_id()));
    let i = choose|i: int| 0 <= i < listing.len() && (#[trigger] listing[i]).id == sandbox.spec_id();
    assert(listing[i] == spec_response(after[listing[i].id]));
}

/// A sandbox that was just deleted is in no listing made after it,
/// whether or not it had been created before.
pub proof fn lemma_deleted_is_not_listed(
    before: Map<Seq<char>, Sandbox>,
    id: Seq<char>,
    listing: Seq<SandboxResponseView>,
)
    requires
        is_listing_of(listing, before.remove(id)),
    ensures
        forall|i: int| 0 <= i < listing.len() ==> (#[trigger] listing[i]).id != id,
{
}

/// Deleting a sandbox right after it was created answers with the record
/// that its creation answered with.
pub proof fn lemma_delete_returns_created(before: Map<Seq<char>, Sandbox>, sandbox: Sandbox)
    ensures
        spec_delete(before.insert(sandbox.spec_id(), sandbox), sandbox.spec_id()) == Ok::<
            SandboxResponseView,
            Error,
        >(spec_response(sandbox)),
{
}

} // verus!
