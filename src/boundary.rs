//! Logic of the boundary entry points of the time-schema proxy: resolve the
//! handles, match on the stored variant tag, delegate to the collaborator,
//! and on any failure hand back the designated safe default together with
//! the failure to raise on the host side.
use vstd::prelude::*;
use crate::handle::{
    is_live, lookup, misuse_of, next_handle, spec_create, spec_destroy, Handle, HandleError,
    Registry,
};

verus! {

/// A storage view, tagged once at creation.
pub enum ViewRef<V> {
    /// Read-only view.
    Snapshot(V),
    /// Mutable, transactional view.
    Fork(V),
}

/// A schema object over a view, tagged like the view it was created from.
/// It names its view by handle.
#[derive(Debug, Clone, Copy, PartialEq, Eq, Structural)]
pub enum SchemaType {
    SnapshotSchema(Handle),
    ForkSchema(Handle),
}

/// Every native object the host can hold a handle to. All kinds share one
/// registry, so a handle number names at most one object, and the variant
/// records the object's kind.
pub enum NativeObject<V> {
    View(ViewRef<V>),
    Schema(SchemaType),
}

/// Why a boundary call did not complete.
#[derive(Debug, Clone, Copy, PartialEq, Eq, Structural)]
pub enum BoundaryFailure {
    /// A handle argument was unknown or already destroyed.
    Misuse(HandleError),
    /// No further handle can be issued.
    Exhausted,
}

/// What a boundary call hands back to the host: a value, and the failure to
/// raise there, if any.
pub struct Outcome<T> {
    pub value: T,
    pub thrown: Option<BoundaryFailure>,
}

/// The schema created over view `v`, which has handle `vh`.
pub open spec fn schema_for<V>(v: ViewRef<V>, vh: Handle) -> SchemaType {
    match v {
        ViewRef::Snapshot(_) => SchemaType::SnapshotSchema(vh),
        ViewRef::Fork(_) => SchemaType::ForkSchema(vh),
    }
}

/// The handle of the view under schema `s`.
pub open spec fn schema_view(s: SchemaType) -> Handle {
    match s {
        SchemaType::SnapshotSchema(vh) => vh,
        SchemaType::ForkSchema(vh) => vh,
    }
}

/// The object wrapped by a view.
pub open spec fn view_object<V>(v: ViewRef<V>) -> V {
    match v {
        ViewRef::Snapshot(x) => x,
        ViewRef::Fork(x) => x,
    }
}

/// The view behind `h`, if `h` is live and names a view.
pub open spec fn view_at<V>(objs: Seq<Option<NativeObject<V>>>, h: Handle) -> Option<ViewRef<V>> {
    match lookup(objs, h) {
        Some(NativeObject::View(v)) => Some(v),
        _ => None,
    }
}

/// The schema behind `h`, if `h` is live and names a schema.
pub open spec fn schema_at<V>(objs: Seq<Option<NativeObject<V>>>, h: Handle) -> Option<SchemaType> {
    match lookup(objs, h) {
        Some(NativeObject::Schema(s)) => Some(s),
        _ => None,
    }
}

/// The misuse reported for a handle that does not name an object of the
/// kind asked for: the handle is dead, unknown, or of another kind.
pub open spec fn kind_misuse<V>(objs: Seq<Option<NativeObject<V>>>, h: Handle) -> HandleError {
    if is_live(objs, h) {
        HandleError::WrongType
    } else {
        misuse_of(objs, h)
    }
}

/// Hands back the value of a completed call, or `default` with the failure.
pub fn unwrap_exc_or<T>(res: Result<T, BoundaryFailure>, default: T) -> (r: Outcome<T>)
    ensures
        match res {
            Ok(v) => r.value == v && r.thrown is None,
            Err(f) => r.value == default && r.thrown == Some(f),
        },
{
    match res {
        Ok(v) => Outcome { value: v, thrown: None },
        Err(f) => Outcome { value: default, thrown: Some(f) },
    }
}

/// `unwrap_exc_or` with the null handle as the default.
pub fn unwrap_exc_or_default(res: Result<Handle, BoundaryFailure>) -> (r: Outcome<Handle>)
    ensures
        match res {
            Ok(v) => r.value == v && r.thrown is None,
            Err(f) => r.value == 0 && r.thrown == Some(f),
        },
{
    unwrap_exc_or(res, 0)
}

/// Resolves `h` as a view; a handle of another kind is a misuse.
pub fn cast_view<V>(objects: &Registry<NativeObject<V>>, h: Handle) -> (r: Result<
    &ViewRef<V>,
    HandleError,
>)
    ensures
        match view_at(objects@, h) {
            Some(v) => r == Ok::<&ViewRef<V>, HandleError>(&v),
            None => r == Err::<&ViewRef<V>, HandleError>(kind_misuse(objects@, h)),
        },
{
    match objects.cast(h) {
        Err(e) => Err(e),
        Ok(NativeObject::View(v)) => Ok(v),
        Ok(NativeObject::Schema(_)) => Err(HandleError::WrongType),
    }
}

/// Resolves `h` as a schema; a handle of another kind is a misuse.
pub fn cast_schema<V>(objects: &Registry<NativeObject<V>>, h: Handle) -> (r: Result<
    SchemaType,
    HandleError,
>)
    ensures
        match schema_at(objects@, h) {
            Some(s) => r == Ok::<SchemaType, HandleError>(s),
            None => r == Err::<SchemaType, HandleError>(kind_misuse(objects@, h)),
        },
{
    match objects.cast(h) {
        Err(e) => Err(e),
        Ok(NativeObject::View(_)) => Err(HandleError::WrongType),
        Ok(NativeObject::Schema(s)) => Ok(*s),
    }
}

/// Registers a view and returns its handle; `Exhausted` when no handle can
/// be issued.
pub fn register_view<V>(objects: &mut Registry<NativeObject<V>>, view: ViewRef<V>) -> (r: Result<
    Handle,
    BoundaryFailure,
>)
    ensures
        old(objects).has_room() ==> r == Ok::<Handle, BoundaryFailure>(next_handle(old(objects)@))
            && final(objects)@ == spec_create(old(objects)@, NativeObject::View(view)),
        !old(objects).has_room() ==> r == Err::<Handle, BoundaryFailure>(
            BoundaryFailure::Exhausted,
        ) && final(objects)@ == old(objects)@,
{
    if !objects.can_create() {
        return Err(BoundaryFailure::Exhausted);
    }
    Ok(objects.create(NativeObject::View(view)))
}

fn create_schema<V>(objects: &mut Registry<NativeObject<V>>, view_handle: Handle) -> (r: Result<
    Handle,
    BoundaryFailure,
>)
    ensures
        view_at(old(objects)@, view_handle) is None ==> r == Err::<Handle, BoundaryFailure>(
            BoundaryFailure::Misuse(kind_misuse(old(objects)@, view_handle)),
        ) && final(objects)@ == old(objects)@,
        view_at(old(objects)@, view_handle) is Some && !old(objects).has_room() ==> r == Err::<
            Handle,
            BoundaryFailure,
        >(BoundaryFailure::Exhausted) && final(objects)@ == old(objects)@,
        view_at(old(objects)@, view_handle) is Some && old(objects).has_room() ==> r == Ok::<
            Handle,
            BoundaryFailure,
        >(next_handle(old(objects)@)) && final(objects)@ == spec_create(
            old(objects)@,
            NativeObject::Schema(
                schema_for(view_at(old(objects)@, view_handle)->Some_0, view_handle),
            ),
        ),
{
    let schema = match cast_view(objects, view_handle) {
        Err(e) => {
            return Err(BoundaryFailure::Misuse(e));
        },
        Ok(ViewRef::Snapshot(_)) => SchemaType::SnapshotSchema(view_handle),
        Ok(ViewRef::Fork(_)) => SchemaType::ForkSchema(view_handle),
    };
    if !objects.can_create() {
        return Err(BoundaryFailure::Exhausted);
    }
    Ok(objects.create(NativeObject::Schema(schema)))
}

/// Creates a schema over the view behind `view_handle`, keeping its tag, and
/// returns the schema's handle; `0` with the failure when `view_handle` is
/// unknown, destroyed or not a view, or when no handle can be issued.
pub fn native_create<V>(objects: &mut Registry<NativeObject<V>>, view_handle: Handle) -> (r:
    Outcome<Handle>)
    ensures
        view_at(old(objects)@, view_handle) is None ==> r.value == 0 && r.thrown == Some(
            BoundaryFailure::Misuse(kind_misuse(old(objects)@, view_handle)),
        ) && final(objects)@ == old(objects)@,
        view_at(old(objects)@, view_handle) is Some && !old(objects).has_room() ==> r.value == 0
            && r.thrown == Some(BoundaryFailure::Exhausted) && final(objects)@ == old(objects)@,
        view_at(old(objects)@, view_handle) is Some && old(objects).has_room() ==> r.value
            == next_handle(old(objects)@) && r.thrown is None && final(objects)@ == spec_create(
            old(objects)@,
            NativeObject::Schema(
                schema_for(view_at(old(objects)@, view_handle)->Some_0, view_handle),
            ),
        ),
{
    let res = create_schema(objects, view_handle);
    unwrap_exc_or_default(res)
}

/// Destroys the schema behind `schema_handle`. A handle that is unknown,
/// destroyed or of another kind is reported, and nothing is destroyed.
pub fn native_free<V>(objects: &mut Registry<NativeObject<V>>, schema_handle: Handle) -> (r:
    Option<BoundaryFailure>)
    ensures
        schema_at(old(objects)@, schema_handle) is Some ==> r is None && final(objects)@
            == spec_destroy(old(objects)@, schema_handle),
        schema_at(old(objects)@, schema_handle) is None ==> r == Some(
            BoundaryFailure::Misuse(kind_misuse(old(objects)@, schema_handle)),
        ) && final(objects)@ == old(objects)@,
{
    match cast_schema(objects, schema_handle) {
        Err(e) => Some(BoundaryFailure::Misuse(e)),
        Ok(_) => {
            let _ = objects.destroy(schema_handle);
            None
        },
    }
}

/// Resolves the schema and then its view, whatever the variant.
fn resolve_view<V>(objects: &Registry<NativeObject<V>>, schema_handle: Handle) -> (r: Result<
    &V,
    BoundaryFailure,
>)
    ensures
        schema_at(objects@, schema_handle) is None ==> r == Err::<&V, BoundaryFailure>(
            BoundaryFailure::Misuse(kind_misuse(objects@, schema_handle)),
        ),
        schema_at(objects@, schema_handle) is Some ==> ({
            let vh = schema_view(schema_at(objects@, schema_handle)->Some_0);
            &&& view_at(objects@, vh) is None ==> r == Err::<&V, BoundaryFailure>(
                BoundaryFailure::Misuse(kind_misuse(objects@, vh)),
            )
            &&& view_at(objects@, vh) is Some ==> r == Ok::<&V, BoundaryFailure>(
                &view_object(view_at(objects@, vh)->Some_0),
            )
        }),
{
    let vh = match cast_schema(objects, schema_handle) {
        Err(e) => {
            return Err(BoundaryFailure::Misuse(e));
        },
        Ok(SchemaType::SnapshotSchema(vh)) => vh,
        Ok(SchemaType::ForkSchema(vh)) => vh,
    };
    match cast_view(objects, vh) {
        Err(e) => Err(BoundaryFailure::Misuse(e)),
        Ok(ViewRef::Snapshot(v)) => Ok(v),
        Ok(ViewRef::Fork(v)) => Ok(v),
    }
}

/// The state hashes that `state_hash` reports for the view under the schema
/// behind `schema_handle`; an empty array with the failure when that handle,
/// or the view handle inside the schema, is unknown, destroyed or of another
/// kind.
pub fn native_get_state_hashes<V, F: Fn(&V) -> Vec<Vec<u8>>>(
    objects: &Registry<NativeObject<V>>,
    schema_handle: Handle,
    state_hash: F,
) -> (r: Outcome<Vec<Vec<u8>>>)
    requires
        forall|v: &V| state_hash.requires((v,)),
    ensures
        schema_at(objects@, schema_handle) is None ==> r.value@.len() == 0 && r.thrown == Some(
            BoundaryFailure::Misuse(kind_misuse(objects@, schema_handle)),
        ),
        schema_at(objects@, schema_handle) is Some ==> ({
            let vh = schema_view(schema_at(objects@, schema_handle)->Some_0);
            &&& view_at(objects@, vh) is None ==> r.value@.len() == 0 && r.thrown == Some(
                BoundaryFailure::Misuse(kind_misuse(objects@, vh)),
            )
            &&& view_at(objects@, vh) is Some ==> r.thrown is None && call_ensures(
                state_hash,
                (&view_object(view_at(objects@, vh)->Some_0),),
                r.value,
            )
        }),
{
    let res = match resolve_view(objects, schema_handle) {
        Err(f) => Err(f),
        Ok(v) => Ok(state_hash(v)),
    };
    unwrap_exc_or(res, Vec::new())
}

} // verus!
