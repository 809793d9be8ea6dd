//! The table of functions a guest exposes, keyed by name.

use vstd::prelude::*;
use crate::error::{CallError, CallErrorView};
use crate::function_types::{ParameterType, ReturnType};

verus! {

/// A function a guest exposes: its name, its signature and where it lives.
#[derive(Debug, PartialEq, Eq)]
pub struct GuestFunctionDefinition {
    pub function_name: String,
    pub parameter_types: Vec<ParameterType>,
    pub return_type: ReturnType,
    /// The address of the callable.
    pub function_pointer: usize,
}

/// The mathematical content of a [`GuestFunctionDefinition`].
pub struct GuestFunctionDefinitionView {
    pub function_name: Seq<char>,
    pub parameter_types: Seq<ParameterType>,
    pub return_type: ReturnType,
    pub function_pointer: usize,
}

impl View for GuestFunctionDefinition {
    type V = GuestFunctionDefinitionView;

    open spec fn view(&self) -> GuestFunctionDefinitionView {
        GuestFunctionDefinitionView {
            function_name: self.function_name@,
            parameter_types: self.parameter_types@,
            return_type: self.return_type,
            function_pointer: self.function_pointer,
        }
    }
}

/// What checking `received` against the signature `expected` yields: nothing
/// to object to when the two sequences are the same, and otherwise a type
/// mismatch that carries both.
pub open spec fn verified_parameters(
    expected: Seq<ParameterType>,
    received: Seq<ParameterType>,
) -> Result<(), CallErrorView> {
    if expected == received {
        Ok(())
    } else {
        Err(CallErrorView::ParameterTypeMismatch { expected, received })
    }
}

/// Whether two lists of types are the same, element by element.
pub fn same_types(left: &[ParameterType], right: &[ParameterType]) -> (same: bool)
    ensures
        same == (left@ == right@),
{
    if left.len() != right.len() {
        return false;
    }
    let mut i: usize = 0;
    while i < left.len()
        invariant
            i <= left.len(),
            left.len() == right.len(),
            forall|j: int| 0 <= j < i ==> left[j] == right[j],
        decreases left.len() - i,
    {
        if left[i] != right[i] {
            return false;
        }
        i += 1;
    }
    assert(left@ =~= right@);
    true
}

/// A fresh vector holding the same types as `types`.
pub fn copy_types(types: &[ParameterType]) -> (copy: Vec<ParameterType>)
    ensures
        copy@ == types@,
{
    let mut copy: Vec<ParameterType> = Vec::new();
    let mut i: usize = 0;
    while i < types.len()
        invariant
            i <= types.len(),
            copy@ == types@.take(i as int),
        decreases types.len() - i,
    {
        copy.push(types[i]);
        i += 1;
    }
    copy
}

impl GuestFunctionDefinition {
    /// A definition of the function `function_name`.
    pub fn new(
        function_name: String,
        parameter_types: Vec<ParameterType>,
        return_type: ReturnType,
        function_pointer: usize,
    ) -> (definition: GuestFunctionDefinition)
        ensures
            definition@ == (GuestFunctionDefinitionView {
                function_name: function_name@,
                parameter_types: parameter_types@,
                return_type,
                function_pointer,
            }),
    {
        GuestFunctionDefinition { function_name, parameter_types, return_type, function_pointer }
    }

    /// Checks that `parameter_types` is exactly this function's signature:
    /// the same number of types, the same types, in the same order.
    pub fn verify_parameters(&self, parameter_types: &[ParameterType]) -> (outcome: Result<
        (),
        CallError,
    >)
        ensures
            crate::error::result_view(outcome) == verified_parameters(
                self@.parameter_types,
                parameter_types@,
            ),
    {
        if same_types(self.parameter_types.as_slice(), parameter_types) {
            Ok(())
        } else {
            Err(
                CallError::ParameterTypeMismatch {
                    expected: copy_types(self.parameter_types.as_slice()),
                    received: copy_types(parameter_types),
                },
            )
        }
    }
}

/// The definition that a lookup of `name` finds in `definitions`: the first
/// one of that name.
pub open spec fn lookup_in(
    definitions: Seq<GuestFunctionDefinitionView>,
    name: Seq<char>,
) -> Option<GuestFunctionDefinitionView>
    decreases definitions.len(),
{
    if definitions.len() == 0 {
        None
    } else if definitions[0].function_name == name {
        Some(definitions[0])
    } else {
        lookup_in(definitions.drop_first(), name)
    }
}

/// The table that a sequence of definitions stands for.
pub open spec fn table_of(definitions: Seq<GuestFunctionDefinitionView>) -> Map<
    Seq<char>,
    GuestFunctionDefinitionView,
> {
    Map::new(
        |name: Seq<char>| lookup_in(definitions, name) is Some,
        |name: Seq<char>| lookup_in(definitions, name).unwrap(),
    )
}

/// The contents of a sequence of definitions, one by one.
pub open spec fn definitions_view(definitions: Seq<GuestFunctionDefinition>) -> Seq<
    GuestFunctionDefinitionView,
> {
    Seq::new(definitions.len(), |i: int| definitions[i]@)
}

/// Where no definition before `index` has the name `name`, a lookup finds
/// the definition at `index` if it has that name, and nothing if `index` is
/// the end.
proof fn lemma_first_match(
    definitions: Seq<GuestFunctionDefinitionView>,
    name: Seq<char>,
    index: int,
)
    requires
        0 <= index <= definitions.len(),
        forall|j: int| 0 <= j < index ==> definitions[j].function_name != name,
    ensures
        index == definitions.len() ==> lookup_in(definitions, name) is None,
        index < definitions.len() && definitions[index].function_name == name ==> lookup_in(
            definitions,
            name,
        ) == Some(definitions[index]),
    decreases index,
{
    if index > 0 {
        let rest = definitions.drop_first();
        assert forall|j: int| 0 <= j < index - 1 implies rest[j].function_name != name by {
            assert(rest[j] == definitions[j + 1]);
        }
        lemma_first_match(rest, name, index - 1);
        if index < definitions.len() {
            assert(rest[index - 1] == definitions[index]);
        }
    }
}

/// Replacing a definition by one of the same name changes what a lookup of
/// that name finds first, and nothing for any other name.
proof fn lemma_replace(
    definitions: Seq<GuestFunctionDefinitionView>,
    index: int,
    definition: GuestFunctionDefinitionView,
)
    requires
        0 <= index < definitions.len(),
        definitions[index].function_name == definition.function_name,
        forall|j: int| 0 <= j < index ==> definitions[j].function_name != definition.function_name,
    ensures
        table_of(definitions.update(index, definition)) == table_of(definitions).insert(
            definition.function_name,
            definition,
        ),
{
    let updated = definitions.update(index, definition);
    assert forall|name: Seq<char>| lookup_in(updated, name) == (if name
        == definition.function_name {
        Some(definition)
    } else {
        lookup_in(definitions, name)
    }) by {
        if name == definition.function_name {
            lemma_first_match(updated, name, index);
        } else {
            lemma_same_lookup(definitions, updated, name);
        }
    }
    assert(table_of(updated) =~= table_of(definitions).insert(
        definition.function_name,
        definition,
    ));
}

/// Two sequences that agree wherever a definition has the name `name`, and
/// on which definitions have it, give the same lookup of `name`.
proof fn lemma_same_lookup(
    left: Seq<GuestFunctionDefinitionView>,
    right: Seq<GuestFunctionDefinitionView>,
    name: Seq<char>,
)
    requires
        left.len() == right.len(),
        forall|j: int|
            0 <= j < left.len() ==> (left[j].function_name == name) == (right[j].function_name
                == name),
        forall|j: int| 0 <= j < left.len() && left[j].function_name == name ==> left[j] == right[j],
    ensures
        lookup_in(left, name) == lookup_in(right, name),
    decreases left.len(),
{
    if left.len() > 0 {
        if left[0].function_name != name {
            let l = left.drop_first();
            let r = right.drop_first();
            assert forall|j: int| 0 <= j < l.len() implies (l[j].function_name == name) == (
            r[j].function_name == name) by {
                assert(l[j] == left[j + 1]);
                assert(r[j] == right[j + 1]);
            }
            assert forall|j: int| 0 <= j < l.len() && l[j].function_name == name implies l[j]
                == r[j] by {
                assert(l[j] == left[j + 1]);
                assert(r[j] == right[j + 1]);
            }
            lemma_same_lookup(l, r, name);
        }
    }
}

/// Appending a definition whose name no earlier one has adds it to the
/// table and changes nothing else.
proof fn lemma_append(
    definitions: Seq<GuestFunctionDefinitionView>,
    definition: GuestFunctionDefinitionView,
)
    requires
        forall|j: int|
            0 <= j < definitions.len() ==> definitions[j].function_name
                != definition.function_name,
    ensures
        table_of(definitions.push(definition)) == table_of(definitions).insert(
            definition.function_name,
            definition,
        ),
{
    let extended = definitions.push(definition);
    assert forall|name: Seq<char>| lookup_in(extended, name) == (if name
        == definition.function_name {
        Some(definition)
    } else {
        lookup_in(definitions, name)
    }) by {
        if name == definition.function_name {
            lemma_first_match(extended, name, definitions.len() as int);
        } else {
            lemma_pushed_lookup(definitions, definition, name);
        }
    }
    assert(table_of(extended) =~= table_of(definitions).insert(
        definition.function_name,
        definition,
    ));
}

/// A definition appended under another name does not change a lookup.
proof fn lemma_pushed_lookup(
    definitions: Seq<GuestFunctionDefinitionView>,
    definition: GuestFunctionDefinitionView,
    name: Seq<char>,
)
    requires
        definition.function_name != name,
    ensures
        lookup_in(definitions.push(definition), name) == lookup_in(definitions, name),
    decreases definitions.len(),
{
    let extended = definitions.push(definition);
    if definitions.len() == 0 {
        assert(extended.drop_first() =~= Seq::empty());
    } else {
        assert(extended[0] == definitions[0]);
        if definitions[0].function_name != name {
            assert(extended.drop_first() =~= definitions.drop_first().push(definition));
            lemma_pushed_lookup(definitions.drop_first(), definition, name);
        }
    }
}

/// Where no name occurs twice among the definitions, the table has as
/// many names as there are definitions.
proof fn lemma_table_size(definitions: Seq<GuestFunctionDefinitionView>)
    requires
        forall|i: int, j: int|
            0 <= i < j < definitions.len() ==> definitions[i].function_name
                != definitions[j].function_name,
    ensures
        table_of(definitions).dom().finite(),
        table_of(definitions).dom().len() == definitions.len(),
    decreases definitions.len(),
{
    if definitions.len() == 0 {
        assert(table_of(definitions).dom() =~= Set::<Seq<char>>::empty());
    } else {
        let earlier = definitions.drop_last();
        let last = definitions.last();
        lemma_table_size(earlier);
        assert(definitions =~= earlier.push(last));
        lemma_append(earlier, last);
        lemma_first_match(earlier, last.function_name, earlier.len() as int);
        assert(table_of(definitions).dom() =~= table_of(earlier).dom().insert(
            last.function_name,
        ));
    }
}

/// The functions a guest exposes. Each name has at most one definition; a
/// later registration under a name replaces the earlier one.
#[derive(Debug)]
pub struct GuestFunctionRegister {
    guest_functions: Vec<GuestFunctionDefinition>,
}

impl View for GuestFunctionRegister {
    type V = Map<Seq<char>, GuestFunctionDefinitionView>;

    closed spec fn view(&self) -> Map<Seq<char>, GuestFunctionDefinitionView> {
        table_of(definitions_view(self.guest_functions@))
    }
}

impl GuestFunctionRegister {
    /// No name occurs twice among the stored definitions.
    pub closed spec fn wf(&self) -> bool {
        forall|i: int, j: int|
            0 <= i < j < self.guest_functions.len() ==> self.guest_functions[i].function_name@
                != self.guest_functions[j].function_name@
    }

    /// The number of stored definitions.
    pub closed spec fn spec_len(&self) -> nat {
        self.guest_functions.len() as nat
    }

    /// An empty register.
    pub fn new() -> (register: GuestFunctionRegister)
        ensures
            register@ == Map::<Seq<char>, GuestFunctionDefinitionView>::empty(),
            register.wf(),
            register.spec_len() == 0,
    {
        let register = GuestFunctionRegister { guest_functions: Vec::new() };
        assert(register@ =~= Map::<Seq<char>, GuestFunctionDefinitionView>::empty());
        register
    }

    /// The position of the first definition named `name`, or the number of
    /// definitions where there is none.
    fn position(&self, name: &String) -> (index: usize)
        ensures
            index <= self.guest_functions.len(),
            forall|j: int| 0 <= j < index ==> self.guest_functions[j].function_name@ != name@,
            index < self.guest_functions.len() ==> self.guest_functions[index as int].function_name@
                == name@,
            index < self.guest_functions.len() <==> self@.contains_key(name@),
            index < self.guest_functions.len() ==> self@[name@]
                == self.guest_functions[index as int]@,
    {
        let mut i: usize = 0;
        while i < self.guest_functions.len() && !(self.guest_functions[i].function_name == *name)
            invariant
                i <= self.guest_functions.len(),
                forall|j: int| 0 <= j < i ==> self.guest_functions[j].function_name@ != name@,
            decreases self.guest_functions.len() - i,
        {
            i += 1;
        }
        proof {
            lemma_first_match(definitions_view(self.guest_functions@), name@, i as int);
        }
        i
    }

    /// Stores `guest_function` under its name. A definition already stored
    /// under that name is replaced and handed back.
    pub fn register(&mut self, guest_function: GuestFunctionDefinition) -> (previous: Option<
        GuestFunctionDefinition,
    >)
        ensures
            final(self)@ == old(self)@.insert(guest_function@.function_name, guest_function@),
            old(self).wf() ==> final(self).wf(),
            previous is Some <==> old(self)@.contains_key(guest_function@.function_name),
            previous matches Some(replaced) ==> replaced@ == old(self)@[guest_function@.function_name],
            final(self).spec_len() == old(self).spec_len() + (if previous is Some {
                0nat
            } else {
                1nat
            }),
    {
        let index = self.position(&guest_function.function_name);
        let ghost before = definitions_view(self.guest_functions@);
        if index < self.guest_functions.len() {
            let replaced = self.guest_functions.remove(index);
            self.guest_functions.insert(index, guest_function);
            proof {
                assert(definitions_view(self.guest_functions@) =~= before.update(
                    index as int,
                    guest_function@,
                ));
                lemma_replace(before, index as int, guest_function@);
            }
            Some(replaced)
        } else {
            self.guest_functions.push(guest_function);
            proof {
                assert(definitions_view(self.guest_functions@) =~= before.push(guest_function@));
                lemma_append(before, guest_function@);
            }
            None
        }
    }

    /// The definition stored under `function_name`, if there is one.
    pub fn get(&self, function_name: &str) -> (found: Option<&GuestFunctionDefinition>)
        ensures
            found is Some <==> self@.contains_key(function_name@),
            found matches Some(definition) ==> definition@ == self@[function_name@],
    {
        let name: String = function_name.to_owned();
        let index = self.position(&name);
        if index < self.guest_functions.len() {
            Some(&self.guest_functions[index])
        } else {
            None
        }
    }

    /// The number of stored definitions. Where no name occurs twice, this
    /// is the number of names that have a definition.
    pub fn len(&self) -> (count: usize)
        ensures
            count == self.spec_len(),
            self.wf() ==> self@.dom().finite() && count == self@.dom().len(),
    {
        proof {
            if self.wf() {
                lemma_table_size(definitions_view(self.guest_functions@));
            }
        }
        self.guest_functions.len()
    }
}

} // verus!
