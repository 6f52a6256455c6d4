//! Registration of the fields and methods of a host type.
//!
//! A [`UserDataRegistry`] collects, for one host type, what the runtime will
//! see of it: plain fields, field getters and setters, protocol fields,
//! methods and protocol methods. Entries keep the order in which they were
//! added, and a name may occur more than once. When everything is added the
//! registry is turned into a [`RawUserDataRegistry`], from which the type's
//! tables are built.

use crate::error::{Error, ErrorView};
use crate::userdata::{result_view, Callback, CallbackKind, CallbackView, UserDataType, Value, ValueKind};
use std::any::TypeId;
use vstd::prelude::*;
use vstd::string::{StrSliceExecFns, StringExecFns};

verus! {

/// Name of the protocol field that is consulted when a key is read.
pub const META_INDEX: &'static str = "__index";

/// Name of the protocol field that is consulted when a key is written.
pub const META_NEWINDEX: &'static str = "__newindex";

/// Why a protocol field was refused.
pub const META_FIELD_EXPECTED: &'static str = "expected nil, table or function";

/// Whether `c` ends a path inside the name of a type: a space, a bracket of
/// any kind, a comma or a semicolon.
pub open spec fn is_delimiter(c: char) -> bool {
    c == ' ' || c == '<' || c == '>' || c == '(' || c == ')' || c == '[' || c == ']' || c == ','
        || c == ';'
}

/// What follows the last `::` of `path`; all of `path` if it has none.
pub open spec fn last_segment(path: Seq<char>) -> Seq<char>
    decreases path.len(),
{
    if path.len() == 0 {
        path
    } else if path.len() >= 2 && path[path.len() - 1] == ':' && path[path.len() - 2] == ':' {
        Seq::empty()
    } else {
        last_segment(path.drop_last()).push(path.last())
    }
}

/// What follows the last delimiter of `full`: the path that no delimiter has
/// ended yet.
pub open spec fn open_path(full: Seq<char>) -> Seq<char>
    decreases full.len(),
{
    if full.len() == 0 || is_delimiter(full.last()) {
        Seq::empty()
    } else {
        open_path(full.drop_last()).push(full.last())
    }
}

/// The paths of `full` that a delimiter has ended, each cut down to its last
/// segment and followed by its delimiter.
pub open spec fn closed_paths(full: Seq<char>) -> Seq<char>
    decreases full.len(),
{
    if full.len() == 0 {
        Seq::empty()
    } else if is_delimiter(full.last()) {
        closed_paths(full.drop_last()) + last_segment(open_path(full.drop_last())).push(full.last())
    } else {
        closed_paths(full.drop_last())
    }
}

/// The name of a type without the modules it lies in: every path in `full`,
/// also those of its type arguments, is cut down to its last segment, and
/// everything between the paths stays.
pub open spec fn short_name(full: Seq<char>) -> Seq<char> {
    closed_paths(full) + last_segment(open_path(full))
}

/// Whether `c` ends a path inside the name of a type.
fn ends_path(c: char) -> (ends: bool)
    ensures
        ends == is_delimiter(c),
{
    c == ' ' || c == '<' || c == '>' || c == '(' || c == ')' || c == '[' || c == ']' || c == ','
        || c == ';'
}

/// The name of a type without the modules it lies in, from its full name:
/// `Option<String>` for `core::option::Option<alloc::string::String>`.
pub fn short_type_name(full: &str) -> (short: String)
    ensures
        short@ == short_name(full@),
{
    let len = full.unicode_len();
    let mut short = String::new();
    let mut path: usize = 0;
    let mut segment: usize = 0;
    let mut at: usize = 0;
    while at < len
        invariant
            len == full@.len(),
            path <= segment <= at <= len,
            short@ == closed_paths(full@.subrange(0, at as int)),
            full@.subrange(path as int, at as int) == open_path(full@.subrange(0, at as int)),
            full@.subrange(segment as int, at as int) == last_segment(
                open_path(full@.subrange(0, at as int)),
            ),
        decreases len - at,
    {
        let c = full.get_char(at);
        let ghost before = full@.subrange(0, at as int);
        let ghost after = full@.subrange(0, at + 1);
        proof {
            assert(after.drop_last() =~= before);
            assert(after.last() == c);
        }
        if ends_path(c) {
            short.append(full.substring_char(segment, at + 1));
            proof {
                assert(full@.subrange(segment as int, at + 1) =~= full@.subrange(
                    segment as int,
                    at as int,
                ).push(c));
                assert(full@.subrange(at + 1, at + 1) =~= Seq::<char>::empty());
            }
            path = at + 1;
            segment = at + 1;
        } else {
            let doubled = c == ':' && path < at && full.get_char(at - 1) == ':';
            proof {
                let open = open_path(after);
                assert(open == open_path(before).push(c));
                assert(full@.subrange(path as int, at + 1) =~= full@.subrange(path as int, at as int).push(
                    c,
                ));
                assert(open.drop_last() =~= open_path(before));
                if path < at {
                    assert(open_path(before).last() == full@[at - 1]);
                }
                if doubled {
                    assert(full@.subrange(at + 1, at + 1) =~= Seq::<char>::empty());
                } else {
                    assert(full@.subrange(segment as int, at + 1) =~= full@.subrange(
                        segment as int,
                        at as int,
                    ).push(c));
                }
            }
            if doubled {
                segment = at + 1;
            }
        }
        at += 1;
    }
    proof {
        assert(full@.subrange(0, len as int) =~= full@);
    }
    short.append(full.substring_char(segment, len));
    short
}

/// The name under which failures of the callable `name` of a host type
/// named `host_type` are reported.
pub open spec fn function_name(host_type: Seq<char>, name: Seq<char>) -> Seq<char> {
    host_type + "."@ + name
}

/// The name under which failures of the callable `name` of the host type
/// `host_type` are reported: the name of the type without the modules it
/// lies in, a dot, and `name`.
pub fn get_function_name(host_type: &str, name: &str) -> (full: String)
    ensures
        full@ == function_name(short_name(host_type@), name@),
{
    let mut full = short_type_name(host_type);
    full.append(".");
    full.append(name);
    full
}

/// The callable `function` as it is registered under `name` for the host
/// type `host_type`.
pub open spec fn boxed<F>(
    host_type: Seq<char>,
    target: UserDataType,
    name: Seq<char>,
    kind: CallbackKind,
    function: F,
) -> CallbackView<F> {
    CallbackView { name: function_name(host_type, name), target, kind, running: false, function }
}

/// Whether the protocol field `name` cannot hold a value of kind `kind`:
/// the fields for reading and writing keys hold nothing but nil, a table or
/// a function.
pub open spec fn meta_field_refused(name: Seq<char>, kind: ValueKind) -> bool {
    (name == META_INDEX@ || name == META_NEWINDEX@) && !kind.indexes()
}

/// What becomes of the value offered for the protocol field `name`.
pub open spec fn checked_meta_field<V>(name: Seq<char>, value: Value<V>) -> Result<Value<V>, ErrorView> {
    if meta_field_refused(name, value.kind) {
        Err(
            ErrorView::MetaMethodTypeError {
                method: name,
                value_type: value.kind.spec_name(),
                message: Some(META_FIELD_EXPECTED@),
            },
        )
    } else {
        Ok(value)
    }
}

/// What becomes of the outcome of producing a value for the protocol field
/// `name`: a failure to produce it stays, a value is checked.
pub open spec fn converted_meta_field<V>(name: Seq<char>, value: Result<Value<V>, Error>) -> Result<
    Value<V>,
    ErrorView,
> {
    match value {
        Ok(value) => checked_meta_field(name, value),
        Err(error) => Err(error@),
    }
}

/// Checks the value offered for the protocol field `name`.
pub fn check_meta_field<V>(name: &str, value: Value<V>) -> (checked: Result<Value<V>, Error>)
    ensures
        result_view(checked) == checked_meta_field(name@, value),
{
    let owned = name.to_owned();
    if owned == META_INDEX.to_owned() || owned == META_NEWINDEX.to_owned() {
        match value.kind {
            ValueKind::Nil | ValueKind::Table | ValueKind::Function => {},
            _ => {
                return Err(
                    Error::MetaMethodTypeError {
                        method: owned,
                        value_type: value.kind.name(),
                        message: Some(META_FIELD_EXPECTED.to_owned()),
                    },
                );
            },
        }
    }
    Ok(value)
}

/// The mathematical value of a list of named callables.
pub open spec fn callbacks_view<F>(entries: Seq<(String, Callback<F>)>) -> Seq<(Seq<char>, CallbackView<F>)> {
    entries.map_values(|entry: (String, Callback<F>)| (entry.0@, entry.1@))
}

/// The mathematical value of a list of named values.
pub open spec fn fields_view<V>(entries: Seq<(String, Result<Value<V>, Error>)>) -> Seq<
    (Seq<char>, Result<Value<V>, ErrorView>),
> {
    entries.map_values(|entry: (String, Result<Value<V>, Error>)| (entry.0@, result_view(entry.1)))
}

/// What was registered for one host type, ready to be made into the tables
/// of the type.
pub struct RawUserDataRegistry<V, F> {
    /// Plain fields.
    pub fields: Vec<(String, Result<Value<V>, Error>)>,
    /// Callables that compute a field when it is read.
    pub field_getters: Vec<(String, Callback<F>)>,
    /// Callables that take the value when a field is written.
    pub field_setters: Vec<(String, Callback<F>)>,
    /// Protocol fields.
    pub meta_fields: Vec<(String, Result<Value<V>, Error>)>,
    /// Methods and functions.
    pub methods: Vec<(String, Callback<F>)>,
    /// Protocol methods and functions.
    pub meta_methods: Vec<(String, Callback<F>)>,
    /// The identifier of the host type, if the host type is registered.
    pub type_id: Option<TypeId>,
    /// The name of the host type, without the modules it lies in.
    pub host_type: String,
}

/// The mathematical value of a [`RawUserDataRegistry`].
pub struct RegistryView<V, F> {
    pub fields: Seq<(Seq<char>, Result<Value<V>, ErrorView>)>,
    pub field_getters: Seq<(Seq<char>, CallbackView<F>)>,
    pub field_setters: Seq<(Seq<char>, CallbackView<F>)>,
    pub meta_fields: Seq<(Seq<char>, Result<Value<V>, ErrorView>)>,
    pub methods: Seq<(Seq<char>, CallbackView<F>)>,
    pub meta_methods: Seq<(Seq<char>, CallbackView<F>)>,
    pub type_id: Option<TypeId>,
    pub host_type: Seq<char>,
}

impl<V, F> RegistryView<V, F> {
    /// A registry without entries.
    pub open spec fn empty(type_id: Option<TypeId>, host_type: Seq<char>) -> RegistryView<V, F> {
        RegistryView {
            fields: Seq::empty(),
            field_getters: Seq::empty(),
            field_setters: Seq::empty(),
            meta_fields: Seq::empty(),
            methods: Seq::empty(),
            meta_methods: Seq::empty(),
            type_id,
            host_type,
        }
    }

    /// This registry followed, list by list, by the entries of `other`.
    pub open spec fn extended(self, other: RegistryView<V, F>) -> RegistryView<V, F> {
        RegistryView {
            fields: self.fields + other.fields,
            field_getters: self.field_getters + other.field_getters,
            field_setters: self.field_setters + other.field_setters,
            meta_fields: self.meta_fields + other.meta_fields,
            methods: self.methods + other.methods,
            meta_methods: self.meta_methods + other.meta_methods,
            ..self
        }
    }
}

impl<V, F> View for RawUserDataRegistry<V, F> {
    type V = RegistryView<V, F>;

    open spec fn view(&self) -> RegistryView<V, F> {
        RegistryView {
            fields: fields_view(self.fields@),
            field_getters: callbacks_view(self.field_getters@),
            field_setters: callbacks_view(self.field_setters@),
            meta_fields: fields_view(self.meta_fields@),
            methods: callbacks_view(self.methods@),
            meta_methods: callbacks_view(self.meta_methods@),
            type_id: self.type_id,
            host_type: self.host_type@,
        }
    }
}

/// The mathematical value of a [`UserDataRegistry`].
pub struct UserDataRegistryView<V, F> {
    /// What was registered so far.
    pub raw: RegistryView<V, F>,
    /// How the self argument of a method is recognised.
    pub target: UserDataType,
}

impl<V, F> UserDataRegistryView<V, F> {
    /// The entry that registering `function` under `name` adds.
    pub open spec fn entry(self, name: Seq<char>, kind: CallbackKind, function: F) -> (
        Seq<char>,
        CallbackView<F>,
    ) {
        (name, boxed(self.raw.host_type, self.target, name, kind, function))
    }

    /// The registry with one more field getter.
    pub open spec fn with_field_getter(self, name: Seq<char>, kind: CallbackKind, function: F) -> Self {
        UserDataRegistryView {
            raw: RegistryView {
                field_getters: self.raw.field_getters.push(self.entry(name, kind, function)),
                ..self.raw
            },
            ..self
        }
    }

    /// The registry with one more field setter.
    pub open spec fn with_field_setter(self, name: Seq<char>, kind: CallbackKind, function: F) -> Self {
        UserDataRegistryView {
            raw: RegistryView {
                field_setters: self.raw.field_setters.push(self.entry(name, kind, function)),
                ..self.raw
            },
            ..self
        }
    }

    /// The registry with one more method or function.
    pub open spec fn with_method(self, name: Seq<char>, kind: CallbackKind, function: F) -> Self {
        UserDataRegistryView {
            raw: RegistryView { methods: self.raw.methods.push(self.entry(name, kind, function)), ..self.raw },
            ..self
        }
    }

    /// The registry with one more protocol method or function.
    pub open spec fn with_meta_method(self, name: Seq<char>, kind: CallbackKind, function: F) -> Self {
        UserDataRegistryView {
            raw: RegistryView {
                meta_methods: self.raw.meta_methods.push(self.entry(name, kind, function)),
                ..self.raw
            },
            ..self
        }
    }

    /// The registry with one more plain field.
    pub open spec fn with_field(self, name: Seq<char>, value: Result<Value<V>, ErrorView>) -> Self {
        UserDataRegistryView {
            raw: RegistryView { fields: self.raw.fields.push((name, value)), ..self.raw },
            ..self
        }
    }

    /// The registry with one more protocol field.
    pub open spec fn with_meta_field(self, name: Seq<char>, value: Result<Value<V>, ErrorView>) -> Self {
        UserDataRegistryView {
            raw: RegistryView { meta_fields: self.raw.meta_fields.push((name, value)), ..self.raw },
            ..self
        }
    }
}

/// Collects what the runtime will see of one host type.
pub struct UserDataRegistry<V, F> {
    raw: RawUserDataRegistry<V, F>,
    target: UserDataType,
}

impl<V, F> View for UserDataRegistry<V, F> {
    type V = UserDataRegistryView<V, F>;

    closed spec fn view(&self) -> UserDataRegistryView<V, F> {
        UserDataRegistryView { raw: self.raw@, target: self.target }
    }
}

/// Adding an entry to a list of callables adds its value to the value of
/// the list.
proof fn lemma_callbacks_push<F>(entries: Seq<(String, Callback<F>)>, entry: (String, Callback<F>))
    ensures
        callbacks_view(entries.push(entry)) == callbacks_view(entries).push((entry.0@, entry.1@)),
{
    assert(callbacks_view(entries.push(entry)) =~= callbacks_view(entries).push((entry.0@, entry.1@)));
}

/// Adding an entry to a list of values adds its value to the value of the
/// list.
proof fn lemma_fields_push<V>(
    entries: Seq<(String, Result<Value<V>, Error>)>,
    entry: (String, Result<Value<V>, Error>),
)
    ensures
        fields_view(entries.push(entry)) == fields_view(entries).push((entry.0@, result_view(entry.1))),
{
    assert(fields_view(entries.push(entry)) =~= fields_view(entries).push((entry.0@, result_view(entry.1))));
}

impl<V, F> UserDataRegistry<V, F> {
    /// A registry for a registered host type: methods run on any object of
    /// the type `type_id`, whose full name is `host_type`. The registry goes
    /// by the name without the modules the type lies in.
    pub fn new(type_id: TypeId, host_type: &str) -> (registry: UserDataRegistry<V, F>)
        ensures
            registry@ == (UserDataRegistryView {
                raw: RegistryView::<V, F>::empty(Some(type_id), short_name(host_type@)),
                target: UserDataType::Shared(type_id),
            }),
    {
        Self::with_type(UserDataType::Shared(type_id), host_type)
    }

    /// A registry for a single object: methods run on the object at
    /// `address` and on no other, whatever its type. `host_type` is the full
    /// name of its type.
    pub fn new_unique(address: usize, host_type: &str) -> (registry: UserDataRegistry<V, F>)
        ensures
            registry@ == (UserDataRegistryView {
                raw: RegistryView::<V, F>::empty(None, short_name(host_type@)),
                target: UserDataType::Unique(address),
            }),
    {
        Self::with_type(UserDataType::Unique(address), host_type)
    }

    /// A registry without entries whose methods run on `target`, for the
    /// host type whose full name is `host_type`.
    pub fn with_type(target: UserDataType, host_type: &str) -> (registry: UserDataRegistry<V, F>)
        ensures
            registry@ == (UserDataRegistryView {
                raw: RegistryView::<V, F>::empty(target.spec_type_id(), short_name(host_type@)),
                target,
            }),
    {
        let raw = RawUserDataRegistry {
            fields: Vec::new(),
            field_getters: Vec::new(),
            field_setters: Vec::new(),
            meta_fields: Vec::new(),
            methods: Vec::new(),
            meta_methods: Vec::new(),
            type_id: target.type_id(),
            host_type: short_type_name(host_type),
        };
        let registry = UserDataRegistry { raw, target };
        proof {
            let empty = RegistryView::<V, F>::empty(target.spec_type_id(), short_name(host_type@));
            assert(registry@.raw.fields =~= empty.fields);
            assert(registry@.raw.field_getters =~= empty.field_getters);
            assert(registry@.raw.field_setters =~= empty.field_setters);
            assert(registry@.raw.meta_fields =~= empty.meta_fields);
            assert(registry@.raw.methods =~= empty.methods);
            assert(registry@.raw.meta_methods =~= empty.meta_methods);
        }
        registry
    }

    /// How the self argument of a method is recognised.
    pub fn target(&self) -> (target: UserDataType)
        ensures
            target == self@.target,
    {
        self.target
    }

    /// What was registered so far.
    pub fn raw(&self) -> (raw: &RawUserDataRegistry<V, F>)
        ensures
            raw@ == self@.raw,
    {
        &self.raw
    }

    /// Boxes `function` as a callable of shape `kind` of this host type.
    fn box_callback(&self, name: &str, kind: CallbackKind, function: F) -> (callback: Callback<F>)
        ensures
            callback@ == boxed(self@.raw.host_type, self@.target, name@, kind, function),
    {
        let mut full = self.raw.host_type.clone();
        full.append(".");
        full.append(name);
        Callback::new(full, self.target, kind, function)
    }

    /// Boxes a method that takes the host object by shared borrow.
    pub fn box_method(&self, name: &str, method: F) -> (callback: Callback<F>)
        ensures
            callback@ == boxed(self@.raw.host_type, self@.target, name@, CallbackKind::Method, method),
    {
        self.box_callback(name, CallbackKind::Method, method)
    }

    /// Boxes a method that takes the host object by exclusive borrow.
    pub fn box_method_mut(&self, name: &str, method: F) -> (callback: Callback<F>)
        ensures
            callback@ == boxed(self@.raw.host_type, self@.target, name@, CallbackKind::MethodMut, method),
    {
        self.box_callback(name, CallbackKind::MethodMut, method)
    }

    /// Boxes a function that takes no host object.
    pub fn box_function(&self, name: &str, function: F) -> (callback: Callback<F>)
        ensures
            callback@ == boxed(self@.raw.host_type, self@.target, name@, CallbackKind::Function, function),
    {
        self.box_callback(name, CallbackKind::Function, function)
    }

    /// Boxes a function that takes no host object and may change its own
    /// state.
    pub fn box_function_mut(&self, name: &str, function: F) -> (callback: Callback<F>)
        ensures
            callback@ == boxed(
                self@.raw.host_type,
                self@.target,
                name@,
                CallbackKind::FunctionMut,
                function,
            ),
    {
        self.box_callback(name, CallbackKind::FunctionMut, function)
    }

    /// Hands over what was registered.
    pub fn into_raw(self) -> (raw: RawUserDataRegistry<V, F>)
        ensures
            raw@ == self@.raw,
    {
        self.raw
    }

    /// Adds a plain field. `value` is what converting the field's value for
    /// the runtime gave.
    pub fn add_field(&mut self, name: String, value: Result<Value<V>, Error>)
        ensures
            final(self)@ == old(self)@.with_field(name@, result_view(value)),
    {
        proof {
            lemma_fields_push(self.raw.fields@, (name, value));
        }
        self.raw.fields.push((name, value));
    }

    /// Adds a getter that takes the host object by shared borrow.
    pub fn add_field_method_get(&mut self, name: String, method: F)
        ensures
            final(self)@ == old(self)@.with_field_getter(name@, CallbackKind::Method, method),
    {
        let callback = self.box_method(name.as_str(), method);
        proof {
            lemma_callbacks_push(self.raw.field_getters@, (name, callback));
        }
        self.raw.field_getters.push((name, callback));
    }

    /// Adds a setter that takes the host object by exclusive borrow.
    pub fn add_field_method_set(&mut self, name: String, method: F)
        ensures
            final(self)@ == old(self)@.with_field_setter(name@, CallbackKind::MethodMut, method),
    {
        let callback = self.box_method_mut(name.as_str(), method);
        proof {
            lemma_callbacks_push(self.raw.field_setters@, (name, callback));
        }
        self.raw.field_setters.push((name, callback));
    }

    /// Adds a getter that is a function of the object as the runtime sees
    /// it.
    pub fn add_field_function_get(&mut self, name: String, function: F)
        ensures
            final(self)@ == old(self)@.with_field_getter(name@, CallbackKind::Function, function),
    {
        let callback = self.box_function(name.as_str(), function);
        proof {
            lemma_callbacks_push(self.raw.field_getters@, (name, callback));
        }
        self.raw.field_getters.push((name, callback));
    }

    /// Adds a setter that is a function of the object as the runtime sees it
    /// and may change its own state.
    pub fn add_field_function_set(&mut self, name: String, function: F)
        ensures
            final(self)@ == old(self)@.with_field_setter(name@, CallbackKind::FunctionMut, function),
    {
        let callback = self.box_function_mut(name.as_str(), function);
        proof {
            lemma_callbacks_push(self.raw.field_setters@, (name, callback));
        }
        self.raw.field_setters.push((name, callback));
    }

    /// Adds a protocol field. `value` is what producing and converting the
    /// field's value gave; a value is checked against what the field can
    /// hold, and the refusal is kept in its place.
    pub fn add_meta_field(&mut self, name: String, value: Result<Value<V>, Error>)
        ensures
            final(self)@ == old(self)@.with_meta_field(name@, converted_meta_field(name@, value)),
    {
        let field = match value {
            Ok(value) => check_meta_field(name.as_str(), value),
            Err(error) => Err(error),
        };
        proof {
            lemma_fields_push(self.raw.meta_fields@, (name, field));
        }
        self.raw.meta_fields.push((name, field));
    }

    /// Adds a method that takes the host object by shared borrow.
    pub fn add_method(&mut self, name: String, method: F)
        ensures
            final(self)@ == old(self)@.with_method(name@, CallbackKind::Method, method),
    {
        let callback = self.box_method(name.as_str(), method);
        proof {
            lemma_callbacks_push(self.raw.methods@, (name, callback));
        }
        self.raw.methods.push((name, callback));
    }

    /// Adds a method that takes the host object by exclusive borrow.
    pub fn add_method_mut(&mut self, name: String, method: F)
        ensures
            final(self)@ == old(self)@.with_method(name@, CallbackKind::MethodMut, method),
    {
        let callback = self.box_method_mut(name.as_str(), method);
        proof {
            lemma_callbacks_push(self.raw.methods@, (name, callback));
        }
        self.raw.methods.push((name, callback));
    }

    /// Adds a function that takes no host object.
    pub fn add_function(&mut self, name: String, function: F)
        ensures
            final(self)@ == old(self)@.with_method(name@, CallbackKind::Function, function),
    {
        let callback = self.box_function(name.as_str(), function);
        proof {
            lemma_callbacks_push(self.raw.methods@, (name, callback));
        }
        self.raw.methods.push((name, callback));
    }

    /// Adds a function that takes no host object and may change its own
    /// state.
    pub fn add_function_mut(&mut self, name: String, function: F)
        ensures
            final(self)@ == old(self)@.with_method(name@, CallbackKind::FunctionMut, function),
    {
        let callback = self.box_function_mut(name.as_str(), function);
        proof {
            lemma_callbacks_push(self.raw.methods@, (name, callback));
        }
        self.raw.methods.push((name, callback));
    }

    /// Adds a protocol method that takes the host object by shared borrow.
    pub fn add_meta_method(&mut self, name: String, method: F)
        ensures
            final(self)@ == old(self)@.with_meta_method(name@, CallbackKind::Method, method),
    {
        let callback = self.box_method(name.as_str(), method);
        proof {
            lemma_callbacks_push(self.raw.meta_methods@, (name, callback));
        }
        self.raw.meta_methods.push((name, callback));
    }

    /// Adds a protocol method that takes the host object by exclusive
    /// borrow.
    pub fn add_meta_method_mut(&mut self, name: String, method: F)
        ensures
            final(self)@ == old(self)@.with_meta_method(name@, CallbackKind::MethodMut, method),
    {
        let callback = self.box_method_mut(name.as_str(), method);
        proof {
            lemma_callbacks_push(self.raw.meta_methods@, (name, callback));
        }
        self.raw.meta_methods.push((name, callback));
    }

    /// Adds a protocol function that takes no host object.
    pub fn add_meta_function(&mut self, name: String, function: F)
        ensures
            final(self)@ == old(self)@.with_meta_method(name@, CallbackKind::Function, function),
    {
        let callback = self.box_function(name.as_str(), function);
        proof {
            lemma_callbacks_push(self.raw.meta_methods@, (name, callback));
        }
        self.raw.meta_methods.push((name, callback));
    }

    /// Adds a protocol function that takes no host object and may change
    /// its own state.
    pub fn add_meta_function_mut(&mut self, name: String, function: F)
        ensures
            final(self)@ == old(self)@.with_meta_method(name@, CallbackKind::FunctionMut, function),
    {
        let callback = self.box_function_mut(name.as_str(), function);
        proof {
            lemma_callbacks_push(self.raw.meta_methods@, (name, callback));
        }
        self.raw.meta_methods.push((name, callback));
    }

    /// Takes over everything that was registered for another host type, in
    /// its order and after what is here already. A type that stands in for
    /// another one shows the runtime the same fields and methods this way.
    pub fn extend(&mut self, orig: RawUserDataRegistry<V, F>)
        ensures
            final(self)@ == (UserDataRegistryView { raw: old(self)@.raw.extended(orig@), ..old(self)@ }),
    {
        let mut orig = orig;
        let ghost other = orig@;
        self.raw.fields.append(&mut orig.fields);
        self.raw.field_getters.append(&mut orig.field_getters);
        self.raw.field_setters.append(&mut orig.field_setters);
        self.raw.meta_fields.append(&mut orig.meta_fields);
        self.raw.methods.append(&mut orig.methods);
        self.raw.meta_methods.append(&mut orig.meta_methods);
        proof {
            let before = old(self)@.raw;
            let after = self@.raw;
            assert(after.fields =~= before.fields + other.fields);
            assert(after.field_getters =~= before.field_getters + other.field_getters);
            assert(after.field_setters =~= before.field_setters + other.field_setters);
            assert(after.meta_fields =~= before.meta_fields + other.meta_fields);
            assert(after.methods =~= before.methods + other.methods);
            assert(after.meta_methods =~= before.meta_methods + other.meta_methods);
        }
    }
}

} // verus!
