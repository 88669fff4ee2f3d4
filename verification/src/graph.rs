//! The composition graph of `wac_graph`, as far as linking two components
//! needs it. Nothing in this file is proved: each contract states what the
//! source of `wac-graph` and `wac-types` shows, over a model of what a graph
//! holds.
//!
//! Components are not read here. `Package::from_bytes` does not return on
//! every component that passes validation, and nothing tells beforehand on
//! which it does; so a package comes in as a value, read by whoever calls,
//! and the graph whose types it was read into comes with it.

use vstd::prelude::*;
use wac_graph::types::Package;
use wac_graph::{
    AliasError, CompositionGraph, EncodeError, EncodeOptions, ExportError,
    InstantiationArgumentError, NodeId, PackageId, RegisterPackageError,
};

verus! {

/// The graph itself. Nothing is known of what is inside one, but through
/// the names below.
#[verifier::external_type_specification]
#[verifier::external_body]
pub struct ExCompositionGraph(CompositionGraph);

/// A component that was read: `Package::from_bytes` returned it.
#[verifier::external_type_specification]
#[verifier::external_body]
pub struct ExPackage(Package);

/// The identifier of a registered package.
#[verifier::external_type_specification]
#[verifier::external_body]
pub struct ExPackageId(PackageId);

/// The identifier of a node.
#[verifier::external_type_specification]
#[verifier::external_body]
pub struct ExNodeId(NodeId);

/// Why a package could not be registered.
#[verifier::external_type_specification]
#[verifier::external_body]
pub struct ExRegisterPackageError(RegisterPackageError);

/// Why an export could not be aliased.
#[verifier::external_type_specification]
#[verifier::external_body]
pub struct ExAliasError(AliasError);

/// Why an argument could not be set.
#[verifier::external_type_specification]
#[verifier::external_body]
pub struct ExInstantiationArgumentError(InstantiationArgumentError);

/// Why a node could not be exported.
#[verifier::external_type_specification]
#[verifier::external_body]
pub struct ExExportError(ExportError);

/// Why a graph could not be encoded.
#[verifier::external_type_specification]
#[verifier::external_body]
pub struct ExEncodeError(EncodeError);

/// The names under which the component `bytes` exports its items.
pub uninterp spec fn exported_names(bytes: Seq<u8>) -> Set<Seq<char>>;

/// The names under which the component `bytes` imports its items.
pub uninterp spec fn imported_names(bytes: Seq<u8>) -> Set<Seq<char>>;

/// Whether what the component `exporter` exports as `export` has a type that
/// the component `importer` accepts for its import `import`.
pub uninterp spec fn fits(
    exporter: Seq<u8>,
    export: Seq<char>,
    importer: Seq<u8>,
    import: Seq<char>,
) -> bool;

/// Whether a composition may export an item under `name`.
pub uninterp spec fn valid_export_name(name: Seq<char>) -> bool;

/// The name a package was made with.
pub uninterp spec fn package_name(package: Package) -> Seq<char>;

/// The bytes a package was made from.
pub uninterp spec fn package_bytes(package: Package) -> Seq<u8>;

/// Whether the types of `package` are in the type collection of `graph`.
pub uninterp spec fn knows(graph: CompositionGraph, package: Package) -> bool;

/// The packages registered with a graph: the name and the bytes of each,
/// under its identifier.
pub uninterp spec fn packages(graph: CompositionGraph) -> Map<PackageId, (Seq<char>, Seq<u8>)>;

/// The instantiation nodes of a graph, each with the package it instantiates.
pub uninterp spec fn instances(graph: CompositionGraph) -> Map<NodeId, PackageId>;

/// The alias nodes of a graph that stand for an export of an instantiation
/// node, each with that node and the name of the export.
pub uninterp spec fn aliases(graph: CompositionGraph) -> Map<NodeId, (NodeId, Seq<char>)>;

/// The arguments set in a graph: instantiation and import name, and the node
/// that satisfies the import.
pub uninterp spec fn arguments(graph: CompositionGraph) -> Map<(NodeId, Seq<char>), NodeId>;

/// The exports of a graph: the node behind each export name.
pub uninterp spec fn exports(graph: CompositionGraph) -> Map<Seq<char>, NodeId>;

/// The nodes of a graph, of every kind.
pub uninterp spec fn nodes(graph: CompositionGraph) -> Set<NodeId>;

/// What `CompositionGraph::encode` returns for a graph with the default
/// options: the bytes, or nothing where it fails.
pub uninterp spec fn encoding(graph: CompositionGraph) -> Option<Seq<u8>>;

/// The texts of `names`, as a set.
pub open spec fn names_of(names: Seq<String>) -> Set<Seq<char>> {
    Set::new(|name: Seq<char>| exists|i: int| 0 <= i < names.len() && (#[trigger] names[i])@ == name)
}

/// Every node of `graph` is an instantiation or the alias of an export of
/// one, and every import of every instantiated component has its argument.
/// Such a graph imports nothing and defines no type, so that encoding it
/// writes no type.
pub open spec fn is_closed(graph: CompositionGraph) -> bool {
    &&& forall|node: NodeId| #[trigger]
        nodes(graph).contains(node) ==> instances(graph).dom().contains(node) || aliases(
            graph,
        ).dom().contains(node)
    &&& forall|node: NodeId, name: Seq<char>|
        instances(graph).dom().contains(node) && #[trigger] imported_names(
            module_at(graph, node),
        ).contains(name) ==> #[trigger] arguments(graph).dom().contains((node, name))
}

/// The bytes of the package that the node `instance` instantiates.
pub open spec fn module_at(graph: CompositionGraph, instance: NodeId) -> Seq<u8> {
    packages(graph)[instances(graph)[instance]].1
}

/// A package named `name` is registered with `graph`.
pub open spec fn is_registered(graph: CompositionGraph, name: Seq<char>) -> bool {
    exists|id: PackageId|
        packages(graph).dom().contains(id) && (#[trigger] packages(graph)[id]).0 == name
}

/// No package, no node, no argument and no export.
pub open spec fn holds_nothing(graph: CompositionGraph) -> bool {
    &&& packages(graph) == Map::<PackageId, (Seq<char>, Seq<u8>)>::empty()
    &&& instances(graph) == Map::<NodeId, PackageId>::empty()
    &&& aliases(graph) == Map::<NodeId, (NodeId, Seq<char>)>::empty()
    &&& arguments(graph) == Map::<(NodeId, Seq<char>), NodeId>::empty()
    &&& exports(graph) == Map::<Seq<char>, NodeId>::empty()
    &&& nodes(graph) == Set::<NodeId>::empty()
}

/// `CompositionGraph::register_package`: fails only where a package of the
/// same name is registered already; else the package is registered under an
/// identifier that was not in use. Nodes, arguments and exports stay.
#[verifier::external_body]
pub(crate) fn register_package(graph: &mut CompositionGraph, package: Package) -> (id: Result<
    PackageId,
    RegisterPackageError,
>)
    requires
        knows(*old(graph), package),
    ensures
        id is Err ==> is_registered(*old(graph), package_name(package)),
        id matches Ok(fresh) ==> !packages(*old(graph)).dom().contains(fresh) && packages(
            *final(graph),
        ) == packages(*old(graph)).insert(fresh, (package_name(package), package_bytes(package))),
        id is Err ==> packages(*final(graph)) == packages(*old(graph)),
        forall|other: Package| knows(*old(graph), other) ==> knows(*final(graph), other),
        instances(*final(graph)) == instances(*old(graph)),
        aliases(*final(graph)) == aliases(*old(graph)),
        arguments(*final(graph)) == arguments(*old(graph)),
        exports(*final(graph)) == exports(*old(graph)),
        nodes(*final(graph)) == nodes(*old(graph)),
{
    graph.register_package(package)
}

/// The names in the import map of a registered package's type, which
/// `Package::from_bytes` filled from the import sections of the component.
#[verifier::external_body]
pub(crate) fn import_names(graph: &CompositionGraph, package: PackageId) -> (names: Vec<String>)
    requires
        packages(*graph).dom().contains(package),
    ensures
        names_of(names@) == imported_names(packages(*graph)[package].1),
{
    graph.types()[graph[package].ty()].imports.keys().cloned().collect()
}

/// `CompositionGraph::instantiate`: adds an instantiation node for a
/// registered package and returns it; the node was not in the graph before.
#[verifier::external_body]
pub(crate) fn instantiate(graph: &mut CompositionGraph, package: PackageId) -> (node: NodeId)
    requires
        packages(*old(graph)).dom().contains(package),
    ensures
        !nodes(*old(graph)).contains(node),
        !instances(*old(graph)).dom().contains(node),
        !aliases(*old(graph)).dom().contains(node),
        nodes(*final(graph)) == nodes(*old(graph)).insert(node),
        instances(*final(graph)) == instances(*old(graph)).insert(node, package),
        packages(*final(graph)) == packages(*old(graph)),
        aliases(*final(graph)) == aliases(*old(graph)),
        arguments(*final(graph)) == arguments(*old(graph)),
        exports(*final(graph)) == exports(*old(graph)),
{
    graph.instantiate(package)
}

/// `CompositionGraph::alias_instance_export` on an instantiation node:
/// succeeds exactly where the instantiated component has an export of that
/// name, and then returns the alias node of that export: the one there is,
/// or a new one.
#[verifier::external_body]
pub(crate) fn alias_instance_export(graph: &mut CompositionGraph, instance: NodeId, export: &str) -> (node:
    Result<NodeId, AliasError>)
    requires
        instances(*old(graph)).dom().contains(instance),
    ensures
        node is Ok <==> exported_names(module_at(*old(graph), instance)).contains(export@),
        node matches Ok(alias) ==> aliases(*final(graph)) == aliases(*old(graph)).insert(
            alias,
            (instance, export@),
        ) && nodes(*final(graph)) == nodes(*old(graph)).insert(alias),
        node matches Ok(alias) ==> !instances(*old(graph)).dom().contains(alias) && (aliases(
            *old(graph),
        ).dom().contains(alias) ==> aliases(*old(graph))[alias] == (instance, export@)),
        packages(*final(graph)) == packages(*old(graph)),
        instances(*final(graph)) == instances(*old(graph)),
        arguments(*final(graph)) == arguments(*old(graph)),
        exports(*final(graph)) == exports(*old(graph)),
{
    graph.alias_instance_export(instance, export)
}

/// `CompositionGraph::set_instantiation_argument` with an alias node as the
/// argument: succeeds exactly where the instantiated component imports
/// `name` and either the same argument is set already, or none is and the
/// aliased export fits the import.
#[verifier::external_body]
pub(crate) fn set_instantiation_argument(
    graph: &mut CompositionGraph,
    instantiation: NodeId,
    name: &str,
    argument: NodeId,
) -> (done: Result<(), InstantiationArgumentError>)
    requires
        instances(*old(graph)).dom().contains(instantiation),
        aliases(*old(graph)).dom().contains(argument),
    ensures
        done is Ok <==> imported_names(module_at(*old(graph), instantiation)).contains(name@)
            && if arguments(*old(graph)).dom().contains((instantiation, name@)) {
            arguments(*old(graph))[(instantiation, name@)] == argument
        } else {
            fits(
                module_at(*old(graph), aliases(*old(graph))[argument].0),
                aliases(*old(graph))[argument].1,
                module_at(*old(graph), instantiation),
                name@,
            )
        },
        done is Ok ==> arguments(*final(graph)) == arguments(*old(graph)).insert(
            (instantiation, name@),
            argument,
        ),
        packages(*final(graph)) == packages(*old(graph)),
        instances(*final(graph)) == instances(*old(graph)),
        aliases(*final(graph)) == aliases(*old(graph)),
        exports(*final(graph)) == exports(*old(graph)),
        nodes(*final(graph)) == nodes(*old(graph)),
{
    graph.set_instantiation_argument(instantiation, name, argument)
}

/// `CompositionGraph::export` of an alias node: succeeds exactly where the
/// name is valid for an export and not yet in use.
#[verifier::external_body]
pub(crate) fn export(graph: &mut CompositionGraph, node: NodeId, name: &str) -> (done: Result<
    (),
    ExportError,
>)
    requires
        aliases(*old(graph)).dom().contains(node),
    ensures
        done is Ok <==> valid_export_name(name@) && !exports(*old(graph)).dom().contains(name@),
        done is Ok ==> exports(*final(graph)) == exports(*old(graph)).insert(name@, node),
        packages(*final(graph)) == packages(*old(graph)),
        instances(*final(graph)) == instances(*old(graph)),
        aliases(*final(graph)) == aliases(*old(graph)),
        arguments(*final(graph)) == arguments(*old(graph)),
        nodes(*final(graph)) == nodes(*old(graph)),
{
    graph.export(node, name)
}

/// `CompositionGraph::encode` with the default options, on a closed graph.
/// Its result is the encoding of the graph. Where it succeeds, the
/// component it returns exports what the graph exports, under the same
/// names, and imports nothing.
#[verifier::external_body]
pub(crate) fn encode(graph: &CompositionGraph) -> (bytes: Result<Vec<u8>, EncodeError>)
    requires
        is_closed(*graph),
    ensures
        match bytes {
            Ok(b) => encoding(*graph) == Some(b@) && exported_names(b@) == exports(*graph).dom()
                && imported_names(b@) == Set::<Seq<char>>::empty(),
            Err(_) => encoding(*graph) is None,
        },
{
    graph.encode(EncodeOptions::default())
}

} // verus!
