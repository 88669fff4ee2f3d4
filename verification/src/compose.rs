//! Linking a guest component to the host component: the guest's prompt
//! interface satisfies the host's import of it, and the composition exports
//! the host's HTTP handler and imports nothing.

use crate::graph::{
    alias_instance_export, aliases, arguments, encode, encoding, export, exported_names, exports,
    fits, holds_nothing, import_names, imported_names, instances, instantiate, is_closed, knows,
    module_at, names_of, nodes, package_bytes, package_name, packages, register_package,
    set_instantiation_argument, valid_export_name,
};
use std::fmt::Display;
use vstd::prelude::*;
use vstd::string::to_string_from_display_ensures;
use wac_graph::types::Package;
use wac_graph::{
    AliasError, CompositionGraph, EncodeError, ExportError, InstantiationArgumentError, NodeId,
    PackageId,
};

verus! {

/// The interface that the guest exports and the host imports.
pub const PROMPT_INTERFACE: &'static str = "component:promptprocessor/promptmodification@0.0.1";

/// The interface that the host exports, and the composition with it.
pub const HANDLER_INTERFACE: &'static str = "wasi:http/incoming-handler@0.2.0";

/// The package name of the guest.
pub const GUEST_PACKAGE: &'static str = "app";

/// The package name of the host.
pub const HOST_PACKAGE: &'static str = "host";

/// The steps of a composition that can fail, in their order. The two
/// components are read before they are composed, by whoever composes them.
#[derive(Clone, Copy, Debug, PartialEq, Eq, Structural)]
pub enum Step {
    /// Reading the guest as a component.
    ReadGuest,
    /// Reading the host as a component.
    ReadHost,
    /// Taking the prompt interface from the guest instance.
    AliasPrompt,
    /// Handing the prompt interface to the host instance.
    BindPrompt,
    /// Taking the handler interface from the host instance.
    AliasHandler,
    /// Exporting the handler interface from the composition.
    ExportHandler,
    /// Making sure that no import of either component is left unresolved.
    ResolveImports,
    /// Encoding the graph.
    Encode,
}

/// The kinds of failure of a composition.
#[derive(Clone, Copy, Debug, PartialEq, Eq, Structural)]
pub enum Fault {
    /// One of the two inputs is not a component.
    Module,
    /// The two components do not fit together as the wiring asks.
    Wiring,
    /// An import is left unresolved, or the graph could not be encoded.
    Encoding,
}

/// A failed composition: the step that failed, and what there is to say
/// about it. For an unresolved import that is its name, and for any other
/// step what the linker said.
#[derive(Debug)]
pub struct CompositionError {
    pub step: Step,
    pub detail: String,
}

/// A failed composition as plain values.
pub ghost struct CompositionErrorView {
    pub step: Step,
    pub detail: Seq<char>,
}

impl View for CompositionError {
    type V = CompositionErrorView;

    open spec fn view(&self) -> CompositionErrorView {
        CompositionErrorView { step: self.step, detail: self.detail@ }
    }
}

/// The kind of failure that a failure of `step` is.
pub open spec fn fault_of(step: Step) -> Fault {
    match step {
        Step::ReadGuest | Step::ReadHost => Fault::Module,
        Step::ResolveImports | Step::Encode => Fault::Encoding,
        _ => Fault::Wiring,
    }
}

impl Step {
    /// The kind of failure that a failure of this step is.
    pub fn fault(self) -> (fault: Fault)
        ensures
            fault == fault_of(self),
    {
        match self {
            Step::ReadGuest | Step::ReadHost => Fault::Module,
            Step::AliasPrompt | Step::BindPrompt | Step::AliasHandler | Step::ExportHandler => {
                Fault::Wiring
            },
            Step::ResolveImports | Step::Encode => Fault::Encoding,
        }
    }
}

/// The text for a kind of failure.
pub open spec fn fault_text(fault: Fault) -> Seq<char> {
    match fault {
        Fault::Module => "module error"@,
        Fault::Wiring => "wiring error"@,
        Fault::Encoding => "encoding error"@,
    }
}

impl CompositionError {
    /// The kind of failure.
    pub fn fault(&self) -> (fault: Fault)
        ensures
            fault == fault_of(self.step),
    {
        self.step.fault()
    }

    /// The failure in one line: its kind, then the detail.
    pub fn message(&self) -> (text: String)
        ensures
            text@ == fault_text(fault_of(self.step)) + ": "@ + self.detail@,
    {
        let kind = match self.step.fault() {
            Fault::Module => "module error",
            Fault::Wiring => "wiring error",
            Fault::Encoding => "encoding error",
        };
        kind.to_owned().concat(": ").concat(self.detail.as_str())
    }
}

/// The imports that the wiring leaves unresolved: every import of the
/// guest, and every import of the host but that of the prompt interface.
pub open spec fn unresolved(guest_imports: Set<Seq<char>>, host_imports: Set<Seq<char>>) -> Set<
    Seq<char>,
> {
    guest_imports + host_imports.remove(PROMPT_INTERFACE@)
}

/// The first import that the wiring leaves unresolved, the guest's before
/// the host's and each in the order given; `None` where it leaves none.
pub open spec fn first_unresolved(guest_imports: Seq<String>, host_imports: Seq<String>) -> Option<
    Seq<char>,
>
    decreases host_imports.len(),
{
    if guest_imports.len() > 0 {
        Some(guest_imports[0]@)
    } else if host_imports.len() == 0 {
        None
    } else if host_imports[0]@ != PROMPT_INTERFACE@ {
        Some(host_imports[0]@)
    } else {
        first_unresolved(guest_imports, host_imports.drop_first())
    }
}

/// `first_unresolved` finds an unresolved import exactly where there is
/// one.
pub proof fn lemma_first_unresolved(guest_imports: Seq<String>, host_imports: Seq<String>)
    ensures
        match first_unresolved(guest_imports, host_imports) {
            Some(name) => unresolved(names_of(guest_imports), names_of(host_imports)).contains(
                name,
            ),
            None => unresolved(names_of(guest_imports), names_of(host_imports)) == Set::<
                Seq<char>,
            >::empty(),
        },
    decreases host_imports.len(),
{
    let open = unresolved(names_of(guest_imports), names_of(host_imports));
    if guest_imports.len() > 0 {
        assert(guest_imports[0]@ == guest_imports[0]@);
        assert(names_of(guest_imports).contains(guest_imports[0]@));
    } else if host_imports.len() == 0 {
        assert(open =~= Set::<Seq<char>>::empty());
    } else if host_imports[0]@ != PROMPT_INTERFACE@ {
        assert(names_of(host_imports).contains(host_imports[0]@));
    } else {
        let rest = host_imports.drop_first();
        lemma_first_unresolved(guest_imports, rest);
        let open_rest = unresolved(names_of(guest_imports), names_of(rest));
        assert forall|name: Seq<char>| open.contains(name) <==> open_rest.contains(name) by {
            if names_of(host_imports).contains(name) && name != PROMPT_INTERFACE@ {
                let i = choose|i: int|
                    0 <= i < host_imports.len() && (#[trigger] host_imports[i])@ == name;
                assert(rest[i - 1] == host_imports[i]);
            }
            if names_of(rest).contains(name) {
                let i = choose|i: int| 0 <= i < rest.len() && (#[trigger] rest[i])@ == name;
                assert(host_imports[i + 1] == rest[i]);
            }
        }
        assert(open =~= open_rest);
    }
}

/// Looks for an import that the wiring leaves unresolved, among the names
/// that the guest and the host import.
pub fn unresolved_import(guest_imports: &Vec<String>, host_imports: &Vec<String>) -> (found:
    Option<String>)
    ensures
        match found {
            Some(name) => first_unresolved(guest_imports@, host_imports@) == Some(name@),
            None => first_unresolved(guest_imports@, host_imports@) is None,
        },
{
    if guest_imports.len() > 0 {
        return Some(guest_imports[0].clone());
    }
    let prompt = PROMPT_INTERFACE.to_owned();
    let mut i: usize = 0;
    assert(host_imports@.skip(0) == host_imports@);
    while i < host_imports.len()
        invariant
            i <= host_imports.len(),
            guest_imports@.len() == 0,
            prompt@ == PROMPT_INTERFACE@,
            first_unresolved(guest_imports@, host_imports@) == first_unresolved(
                guest_imports@,
                host_imports@.skip(i as int),
            ),
        decreases host_imports.len() - i,
    {
        let ghost rest = host_imports@.skip(i as int);
        proof {
            assert(rest[0] == host_imports@[i as int]);
            assert(rest.drop_first() == host_imports@.skip(i + 1));
        }
        if host_imports[i] != prompt {
            return Some(host_imports[i].clone());
        }
        i += 1;
    }
    None
}

/// The first step that fails for a guest and a host with these bytes, if
/// any does before the graph is encoded.
pub open spec fn first_failure(guest: Seq<u8>, host: Seq<u8>) -> Option<Step> {
    if !exported_names(guest).contains(PROMPT_INTERFACE@) {
        Some(Step::AliasPrompt)
    } else if !imported_names(host).contains(PROMPT_INTERFACE@) || !fits(
        guest,
        PROMPT_INTERFACE@,
        host,
        PROMPT_INTERFACE@,
    ) {
        Some(Step::BindPrompt)
    } else if !exported_names(host).contains(HANDLER_INTERFACE@) {
        Some(Step::AliasHandler)
    } else if !valid_export_name(HANDLER_INTERFACE@) {
        Some(Step::ExportHandler)
    } else if unresolved(imported_names(guest), imported_names(host)) != Set::<Seq<char>>::empty() {
        Some(Step::ResolveImports)
    } else {
        None
    }
}

/// `graph` holds the wiring of a guest and a host with these bytes, under
/// these identifiers: the two packages `app` and `host`, one instance of
/// each, the alias of the guest's prompt interface as the host's argument
/// for its import of that interface, and the alias of the host's handler
/// interface as the one export; and no other node.
pub open spec fn wired_as(
    graph: CompositionGraph,
    guest: Seq<u8>,
    host: Seq<u8>,
    packages_of: (PackageId, PackageId),
    instances_of: (NodeId, NodeId),
    prompt: NodeId,
    handler: NodeId,
) -> bool {
    let (guest_id, host_id) = packages_of;
    let (guest_instance, host_instance) = instances_of;
    &&& guest_id != host_id
    &&& guest_instance != host_instance
    &&& prompt != handler
    &&& packages(graph) == Map::<PackageId, (Seq<char>, Seq<u8>)>::empty().insert(
        guest_id,
        (GUEST_PACKAGE@, guest),
    ).insert(host_id, (HOST_PACKAGE@, host))
    &&& instances(graph) == Map::<NodeId, PackageId>::empty().insert(
        guest_instance,
        guest_id,
    ).insert(host_instance, host_id)
    &&& aliases(graph) == Map::<NodeId, (NodeId, Seq<char>)>::empty().insert(
        prompt,
        (guest_instance, PROMPT_INTERFACE@),
    ).insert(handler, (host_instance, HANDLER_INTERFACE@))
    &&& arguments(graph) == Map::<(NodeId, Seq<char>), NodeId>::empty().insert(
        (host_instance, PROMPT_INTERFACE@),
        prompt,
    )
    &&& exports(graph) == Map::<Seq<char>, NodeId>::empty().insert(HANDLER_INTERFACE@, handler)
    &&& nodes(graph) == Set::<NodeId>::empty().insert(guest_instance).insert(host_instance).insert(
        prompt,
    ).insert(handler)
}

/// `graph` holds the wiring of a guest and a host with these bytes.
pub open spec fn wired(graph: CompositionGraph, guest: Seq<u8>, host: Seq<u8>) -> bool {
    exists|
        packages_of: (PackageId, PackageId),
        instances_of: (NodeId, NodeId),
        prompt: NodeId,
        handler: NodeId,
    | #[trigger]
        wired_as(graph, guest, host, packages_of, instances_of, prompt, handler)
}

/// `detail` is what `cause` says of itself: the text that `to_string`
/// gives for it.
pub open spec fn says<T: Display>(cause: T, detail: Seq<char>) -> bool {
    exists|text: String| text@ == detail && #[trigger] to_string_from_display_ensures::<T>(
        &cause,
        text,
    )
}

/// The detail of `failure` is the diagnostic of its step: for an
/// unresolved import, the name of one of `open`; for a step of the linker,
/// what an error of that step says of itself.
pub open spec fn diagnosed(failure: CompositionErrorView, open: Set<Seq<char>>) -> bool {
    match failure.step {
        Step::AliasPrompt | Step::AliasHandler => exists|cause: AliasError| #[trigger]
            says(cause, failure.detail),
        Step::BindPrompt => exists|cause: InstantiationArgumentError| #[trigger]
            says(cause, failure.detail),
        Step::ExportHandler => exists|cause: ExportError| #[trigger] says(cause, failure.detail),
        Step::Encode => exists|cause: EncodeError| #[trigger] says(cause, failure.detail),
        Step::ResolveImports => open.contains(failure.detail),
        Step::ReadGuest | Step::ReadHost => false,
    }
}

/// `outcome` is the encoding of `graph`: its bytes, or a failure of the
/// encoding where there are none.
pub open spec fn encoded(
    graph: CompositionGraph,
    outcome: Result<Seq<u8>, CompositionErrorView>,
) -> bool {
    match outcome {
        Ok(bytes) => encoding(graph) == Some(bytes),
        Err(e) => e.step == Step::Encode && encoding(graph) is None,
    }
}

/// What a composition of a guest and a host with these bytes returns.
/// Where a step fails before the graph is encoded, the failure of the first
/// such step. Else the encoding of a graph that holds the wiring, and where
/// that is a component, one that exports the handler interface and nothing
/// else, and imports nothing. Every failure comes with its diagnostic.
pub open spec fn composed(
    guest: Seq<u8>,
    host: Seq<u8>,
    outcome: Result<Seq<u8>, CompositionErrorView>,
) -> bool {
    &&& match first_failure(guest, host) {
        Some(step) => outcome is Err && outcome->Err_0.step == step,
        None => {
            &&& exists|graph: CompositionGraph| #[trigger]
                wired(graph, guest, host) && encoded(graph, outcome)
            &&& outcome matches Ok(bytes) ==> exported_names(bytes) == set![HANDLER_INTERFACE@]
                && imported_names(bytes) == Set::<Seq<char>>::empty()
        },
    }
    &&& outcome matches Err(failure) ==> diagnosed(
        failure,
        unresolved(imported_names(guest), imported_names(host)),
    )
}

/// An outcome as plain values.
pub open spec fn outcome_view(outcome: Result<Vec<u8>, CompositionError>) -> Result<
    Seq<u8>,
    CompositionErrorView,
> {
    match outcome {
        Ok(bytes) => Ok(bytes@),
        Err(e) => Err(e@),
    }
}

/// Composed twice from the same two components: where both compositions
/// succeed, the results export the same names and import the same names,
/// and where one fails before encoding, the other fails at the same step.
pub proof fn lemma_same_inputs_same_surface(
    guest: Seq<u8>,
    host: Seq<u8>,
    first: Result<Seq<u8>, CompositionErrorView>,
    second: Result<Seq<u8>, CompositionErrorView>,
)
    requires
        composed(guest, host, first),
        composed(guest, host, second),
    ensures
        first is Ok && second is Ok ==> exported_names(first->Ok_0) == exported_names(
            second->Ok_0,
        ) && imported_names(first->Ok_0) == imported_names(second->Ok_0),
        first is Err && first->Err_0.step != Step::Encode ==> second is Err && second->Err_0.step
            == first->Err_0.step,
{
}

/// A host that does not import the prompt interface under its exact name
/// is never composed: the composition fails, and the failure is one of
/// wiring.
pub proof fn lemma_unmatched_import_fails(
    guest: Seq<u8>,
    host: Seq<u8>,
    outcome: Result<Seq<u8>, CompositionErrorView>,
)
    requires
        !imported_names(host).contains(PROMPT_INTERFACE@),
        composed(guest, host, outcome),
    ensures
        outcome is Err,
        fault_of(outcome->Err_0.step) == Fault::Wiring,
{
}

/// A composition that succeeds leaves no import unresolved: the guest
/// imports nothing, the host imports the prompt interface and nothing else,
/// and the result imports nothing.
pub proof fn lemma_success_resolves_all(
    guest: Seq<u8>,
    host: Seq<u8>,
    outcome: Result<Seq<u8>, CompositionErrorView>,
)
    requires
        composed(guest, host, outcome),
        outcome is Ok,
    ensures
        imported_names(guest) == Set::<Seq<char>>::empty(),
        imported_names(host) == set![PROMPT_INTERFACE@],
        imported_names(outcome->Ok_0) == Set::<Seq<char>>::empty(),
{
    let open = unresolved(imported_names(guest), imported_names(host));
    assert(open == Set::<Seq<char>>::empty());
    assert forall|name: Seq<char>| !imported_names(guest).contains(name) by {
        assert(!open.contains(name));
    }
    assert forall|name: Seq<char>|
        imported_names(host).contains(name) <==> name == PROMPT_INTERFACE@ by {
        assert(!open.contains(name));
    }
    assert(imported_names(guest) =~= Set::<Seq<char>>::empty());
    assert(imported_names(host) =~= set![PROMPT_INTERFACE@]);
}

/// Composes `guest` with `host`, two components that were read into the
/// types of `graph`, a graph that holds nothing yet. Both are registered,
/// the guest as `app` and the host as `host`, and instantiated in that
/// order; the prompt interface of the guest instance becomes the argument of
/// the host instance for its import of the same name; the handler interface
/// of the host instance is exported under its own name; no import may be
/// left unresolved; and the graph is encoded. The first step that fails
/// ends the composition.
pub fn compose_components(graph: CompositionGraph, guest: Package, host: Package) -> (outcome:
    Result<Vec<u8>, CompositionError>)
    requires
        holds_nothing(graph),
        knows(graph, guest),
        knows(graph, host),
        package_name(guest) == GUEST_PACKAGE@,
        package_name(host) == HOST_PACKAGE@,
    ensures
        composed(package_bytes(guest), package_bytes(host), outcome_view(outcome)),
{
    proof {
        reveal_strlit("app");
        reveal_strlit("host");
    }
    let ghost guest_bytes = package_bytes(guest);
    let ghost host_bytes = package_bytes(host);
    let ghost open = unresolved(imported_names(guest_bytes), imported_names(host_bytes));
    let mut graph = graph;
    let guest_id = match register_package(&mut graph, guest) {
        Ok(id) => id,
        Err(_) => {
            assert(false);
            vstd::pervasive::unreached()
        },
    };
    let host_id = match register_package(&mut graph, host) {
        Ok(id) => id,
        Err(_) => {
            assert(GUEST_PACKAGE@.len() == 3 && HOST_PACKAGE@.len() == 4);
            assert(false);
            vstd::pervasive::unreached()
        },
    };
    let guest_instance = instantiate(&mut graph, guest_id);
    let host_instance = instantiate(&mut graph, host_id);
    assert(module_at(graph, guest_instance) == guest_bytes);
    assert(module_at(graph, host_instance) == host_bytes);
    let prompt = match alias_instance_export(&mut graph, guest_instance, PROMPT_INTERFACE) {
        Ok(node) => node,
        Err(e) => {
            let failure = CompositionError { step: Step::AliasPrompt, detail: e.to_string() };
            assert(says(e, failure@.detail));
            assert(diagnosed(failure@, open));
            return Err(failure);
        },
    };
    match set_instantiation_argument(&mut graph, host_instance, PROMPT_INTERFACE, prompt) {
        Ok(()) => {},
        Err(e) => {
            let failure = CompositionError { step: Step::BindPrompt, detail: e.to_string() };
            assert(says(e, failure@.detail));
            assert(diagnosed(failure@, open));
            return Err(failure);
        },
    }
    let handler = match alias_instance_export(&mut graph, host_instance, HANDLER_INTERFACE) {
        Ok(node) => node,
        Err(e) => {
            let failure = CompositionError { step: Step::AliasHandler, detail: e.to_string() };
            assert(says(e, failure@.detail));
            assert(diagnosed(failure@, open));
            return Err(failure);
        },
    };
    match export(&mut graph, handler, HANDLER_INTERFACE) {
        Ok(()) => {},
        Err(e) => {
            let failure = CompositionError { step: Step::ExportHandler, detail: e.to_string() };
            assert(says(e, failure@.detail));
            assert(diagnosed(failure@, open));
            return Err(failure);
        },
    }
    let guest_imports = import_names(&graph, guest_id);
    let host_imports = import_names(&graph, host_id);
    proof {
        lemma_first_unresolved(guest_imports@, host_imports@);
    }
    match unresolved_import(&guest_imports, &host_imports) {
        Some(name) => return Err(CompositionError { step: Step::ResolveImports, detail: name }),
        None => {},
    }
    proof {
        assert forall|node: NodeId, name: Seq<char>|
            instances(graph).dom().contains(node) && #[trigger] imported_names(
                module_at(graph, node),
            ).contains(name) implies #[trigger] arguments(graph).dom().contains((node, name)) by {
            assert(!open.contains(name));
        }
        assert(is_closed(graph));
        assert(wired_as(
            graph,
            guest_bytes,
            host_bytes,
            (guest_id, host_id),
            (guest_instance, host_instance),
            prompt,
            handler,
        ));
        assert(wired(graph, guest_bytes, host_bytes));
        assert(exports(graph).dom() =~= set![HANDLER_INTERFACE@]);
    }
    match encode(&graph) {
        Ok(bytes) => {
            proof {
                assert(encoded(graph, Ok(bytes@)));
            }
            Ok(bytes)
        },
        Err(e) => {
            let failure = CompositionError { step: Step::Encode, detail: e.to_string() };
            proof {
                assert(says(e, failure@.detail));
                assert(diagnosed(failure@, open));
                assert(encoded(graph, Err(failure@)));
            }
            Err(failure)
        },
    }
}

} // verus!
