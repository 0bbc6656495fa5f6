use crate::ast::Node;
use crate::entries::first_index;
use crate::entries::has_key;
use crate::entries::inserted;
use crate::entries::is_first_index;
use crate::entries::lemma_absent;
use crate::entries::lemma_first_index_unique;
use super::class_view;
use super::ClassView;
use super::clone_class;
use super::clone_method;
use super::clone_method_parameter;
use super::clone_property;
use super::method_parameter_view;
use super::method_view;
use super::methods_view;
use super::MethodView;
use super::ParameterView;
use super::properties_view;
use super::property_view;
use super::PropertyView;
use super::RuntimeValue;
use super::Value;
use super::ValueType;
use std::sync::Arc;
use vstd::prelude::*;

verus! {

/// A property that a class declares.
#[derive(Debug)]
pub struct ClassProperty {
    pub name: String,
    pub value: Value,
    pub is_static: bool,
}

impl View for ClassProperty {
    type V = PropertyView;

    open spec fn view(&self) -> PropertyView {
        property_view(*self)
    }
}

impl Clone for ClassProperty {
    fn clone(&self) -> (r: Self)
        ensures
            r@ == self@,
    {
        clone_property(self)
    }
}

/// A parameter of a method.
#[derive(Debug)]
pub struct ClassMethodParameter {
    pub name: String,
    pub default_value: Option<Value>,
}

impl View for ClassMethodParameter {
    type V = ParameterView;

    open spec fn view(&self) -> ParameterView {
        method_parameter_view(*self)
    }
}

impl Clone for ClassMethodParameter {
    fn clone(&self) -> (r: Self)
        ensures
            r@ == self@,
    {
        clone_method_parameter(self)
    }
}

/// A method that a class declares.
#[derive(Debug)]
pub struct ClassMethod {
    pub name: String,
    pub args: Vec<ClassMethodParameter>,
    pub body: Arc<Node>,
    pub is_static: bool,
}

impl View for ClassMethod {
    type V = MethodView;

    open spec fn view(&self) -> MethodView {
        method_view(*self)
    }
}

impl Clone for ClassMethod {
    fn clone(&self) -> (r: Self)
        ensures
            r@ == self@,
    {
        clone_method(self)
    }
}

/// A class: its name, the class it extends as it was when this one was
/// declared, its properties in the order of their declaration, and its methods
/// by name.
#[derive(Debug)]
pub struct ClassValue {
    pub name: String,
    pub super_class: Option<Box<ClassValue>>,
    pub properties: Vec<ClassProperty>,
    pub methods: Vec<(String, ClassMethod)>,
}

impl View for ClassValue {
    type V = ClassView;

    open spec fn view(&self) -> ClassView {
        ClassView {
            name: self.name@,
            super_class: match self.super_class {
                Some(s) => Some(Box::new(class_view(*s))),
                None => None,
            },
            properties: properties_view(self.properties),
            methods: methods_view(self.methods),
        }
    }
}

impl Clone for ClassValue {
    fn clone(&self) -> (r: Self)
        ensures
            r@ == self@,
    {
        clone_class(self)
    }
}

impl RuntimeValue for ClassValue {
    open spec fn kind_spec(&self) -> ValueType {
        ValueType::Class
    }

    fn kind(&self) -> ValueType {
        ValueType::Class
    }
}

impl Default for ClassValue {
    fn default() -> (r: Self)
        ensures
            r@ == (ClassView {
                name: Seq::empty(),
                super_class: None,
                properties: Seq::empty(),
                methods: Seq::empty(),
            }),
    {
        let r = ClassValue {
            name: String::new(),
            super_class: None,
            properties: Vec::new(),
            methods: Vec::new(),
        };
        assert(r@.properties =~= Seq::empty());
        assert(r@.methods =~= Seq::empty());
        r
    }
}

/// The properties, each under its name.
pub open spec fn by_name(properties: Seq<PropertyView>) -> Seq<(Seq<char>, PropertyView)> {
    Seq::new(properties.len(), |i: int| (properties[i].name, properties[i]))
}

/// `properties` with `property` put last, after the first property of the
/// same name, if there is one, has been taken out.
pub open spec fn with_property(properties: Seq<PropertyView>, property: PropertyView) -> Seq<
    PropertyView,
> {
    if has_key(by_name(properties), property.name) {
        properties.remove(first_index(by_name(properties), property.name)).push(property)
    } else {
        properties.push(property)
    }
}

/// `own` after the instance properties among the first `n` of `target` have
/// been put into it, one after the other.
pub open spec fn with_inherited_properties(
    own: Seq<PropertyView>,
    target: Seq<PropertyView>,
    n: int,
) -> Seq<PropertyView>
    decreases n,
{
    if n <= 0 {
        own
    } else {
        let before = with_inherited_properties(own, target, n - 1);
        if target[n - 1].is_static {
            before
        } else {
            with_property(before, target[n - 1])
        }
    }
}

/// A method that a subclass takes over: an instance method that is not the
/// constructor.
pub open spec fn is_inherited(key: Seq<char>, method: MethodView) -> bool {
    key != "__new__"@ && !method.is_static
}

/// `own` after the inherited methods among the first `n` of `target` have been
/// put into it, each under its name.
pub open spec fn with_inherited_methods(
    own: Seq<(Seq<char>, MethodView)>,
    target: Seq<(Seq<char>, MethodView)>,
    n: int,
) -> Seq<(Seq<char>, MethodView)>
    decreases n,
{
    if n <= 0 {
        own
    } else {
        let before = with_inherited_methods(own, target, n - 1);
        if is_inherited(target[n - 1].0, target[n - 1].1) {
            inserted(before, target[n - 1].1.name, target[n - 1].1)
        } else {
            before
        }
    }
}

/// `i` is the first position of a static property called `name`.
pub open spec fn is_first_static_property(
    properties: Seq<PropertyView>,
    name: Seq<char>,
    i: int,
) -> bool {
    &&& 0 <= i < properties.len()
    &&& properties[i].name == name
    &&& properties[i].is_static
    &&& forall|j: int|
        0 <= j < i ==> !((#[trigger] properties[j]).name == name && properties[j].is_static)
}

/// `i` is the first position of a static method under `name`.
pub open spec fn is_first_static_method(
    methods: Seq<(Seq<char>, MethodView)>,
    name: Seq<char>,
    i: int,
) -> bool {
    &&& 0 <= i < methods.len()
    &&& methods[i].0 == name
    &&& methods[i].1.is_static
    &&& forall|j: int|
        0 <= j < i ==> !((#[trigger] methods[j]).0 == name && methods[j].1.is_static)
}

/// `i` is the first position of a method under `name` that is static or not
/// as `is_static` says.
pub open spec fn is_first_method(
    methods: Seq<(Seq<char>, MethodView)>,
    name: Seq<char>,
    is_static: bool,
    i: int,
) -> bool {
    &&& 0 <= i < methods.len()
    &&& methods[i].0 == name
    &&& methods[i].1.is_static == is_static
    &&& forall|j: int|
        0 <= j < i ==> !((#[trigger] methods[j]).0 == name && methods[j].1.is_static == is_static)
}

/// There is a method under `name` that is static or not as `is_static` says.
pub open spec fn has_method(
    methods: Seq<(Seq<char>, MethodView)>,
    name: Seq<char>,
    is_static: bool,
) -> bool {
    exists|i: int| is_first_method(methods, name, is_static, i)
}

/// The first such method, where there is one.
pub open spec fn first_method(
    methods: Seq<(Seq<char>, MethodView)>,
    name: Seq<char>,
    is_static: bool,
) -> MethodView {
    methods[choose|i: int| is_first_method(methods, name, is_static, i)].1
}

/// The position of the first method under `name` that is static or not as
/// `is_static` says.
pub fn find_method_of_kind(
    methods: &Vec<(String, ClassMethod)>,
    name: &String,
    is_static: bool,
) -> (r: Option<usize>)
    ensures
        match r {
            Some(i) => is_first_method(methods_view(*methods), name@, is_static, i as int)
                && has_method(methods_view(*methods), name@, is_static) && first_method(
                methods_view(*methods),
                name@,
                is_static,
            ) == methods_view(*methods)[i as int].1,
            None => !has_method(methods_view(*methods), name@, is_static),
        },
{
    let ghost ms = methods_view(*methods);
    let mut i: usize = 0;
    while i < methods.len()
        invariant
            i <= methods.len(),
            ms == methods_view(*methods),
            forall|j: int|
                0 <= j < i ==> !((#[trigger] ms[j]).0 == name@ && ms[j].1.is_static == is_static),
        decreases methods.len() - i,
    {
        if methods[i].0 == *name && methods[i].1.is_static == is_static {
            assert(is_first_method(ms, name@, is_static, i as int));
            let ghost c = choose|c: int| is_first_method(ms, name@, is_static, c);
            assert(c == i) by {
                if c < i {
                    assert(!(ms[c].0 == name@ && ms[c].1.is_static == is_static));
                }
                if i < c {
                    assert(!(ms[i as int].0 == name@ && ms[i as int].1.is_static == is_static));
                }
            }
            return Some(i);
        }
        i = i + 1;
    }
    assert forall|c: int| !is_first_method(ms, name@, is_static, c) by {
        if 0 <= c < ms.len() {
            assert(!(ms[c].0 == name@ && ms[c].1.is_static == is_static));
        }
    }
    None
}

/// The position of the first method under `key`.
pub fn find_method(methods: &Vec<(String, ClassMethod)>, key: &String) -> (r: Option<usize>)
    ensures
        match r {
            Some(i) => is_first_index(methods_view(*methods), key@, i as int),
            None => forall|j: int|
                0 <= j < methods.len() ==> (#[trigger] methods_view(*methods)[j]).0 != key@,
        },
{
    let mut i: usize = 0;
    while i < methods.len()
        invariant
            i <= methods.len(),
            forall|j: int| 0 <= j < i ==> (#[trigger] methods_view(*methods)[j]).0 != key@,
        decreases methods.len() - i,
    {
        if methods[i].0 == *key {
            return Some(i);
        }
        i = i + 1;
    }
    None
}

impl ClassValue {
    /// Puts `property` last among the properties; an earlier property of the
    /// same name leaves.
    pub fn insert_property(&mut self, property: ClassProperty)
        ensures
            final(self)@.properties == with_property(old(self)@.properties, property@),
            final(self)@.name == old(self)@.name,
            final(self)@.super_class == old(self)@.super_class,
            final(self)@.methods == old(self)@.methods,
    {
        let ghost keyed = by_name(self@.properties);
        let mut i: usize = 0;
        let mut found: Option<usize> = None;
        while i < self.properties.len() && found.is_none()
            invariant
                i <= self.properties.len(),
                *self == *old(self),
                keyed == by_name(self@.properties),
                match found {
                    Some(p) => is_first_index(keyed, property.name@, p as int),
                    None => forall|j: int| 0 <= j < i ==> (#[trigger] keyed[j]).0 != property.name@,
                },
            decreases self.properties.len() - i + (if found.is_none() { 1int } else { 0int }),
        {
            if self.properties[i].name == property.name {
                found = Some(i);
            } else {
                i = i + 1;
            }
        }
        match found {
            Some(p) => {
                proof {
                    lemma_first_index_unique(keyed, property.name@, p as int);
                }
                self.properties.remove(p);
            },
            None => {
                proof {
                    lemma_absent(keyed, property.name@);
                }
            },
        }
        self.properties.push(property);
        assert(self@.properties =~= with_property(old(self)@.properties, property@));
    }

    /// Puts `method` under its name; an earlier method of that name is
    /// replaced.
    pub fn insert_method(&mut self, method: ClassMethod)
        ensures
            final(self)@.methods == inserted(old(self)@.methods, method@.name, method@),
            final(self)@.name == old(self)@.name,
            final(self)@.super_class == old(self)@.super_class,
            final(self)@.properties == old(self)@.properties,
    {
        let key = method.name.clone();
        match find_method(&self.methods, &key) {
            Some(i) => {
                proof {
                    lemma_first_index_unique(self@.methods, key@, i as int);
                }
                self.methods[i] = (key, method);
            },
            None => {
                proof {
                    lemma_absent(self@.methods, key@);
                }
                self.methods.push((key, method));
            },
        }
        assert(self@.methods =~= inserted(old(self)@.methods, method@.name, method@));
    }

    /// Takes over the instance properties of `target_class`, in their order.
    pub fn copy_properties(&mut self, target_class: &ClassValue)
        ensures
            final(self)@.properties == with_inherited_properties(
                old(self)@.properties,
                target_class@.properties,
                target_class@.properties.len() as int,
            ),
            final(self)@.name == old(self)@.name,
            final(self)@.super_class == old(self)@.super_class,
            final(self)@.methods == old(self)@.methods,
    {
        let mut i: usize = 0;
        while i < target_class.properties.len()
            invariant
                i <= target_class.properties.len(),
                self@.properties == with_inherited_properties(
                    old(self)@.properties,
                    target_class@.properties,
                    i as int,
                ),
                self@.name == old(self)@.name,
                self@.super_class == old(self)@.super_class,
                self@.methods == old(self)@.methods,
            decreases target_class.properties.len() - i,
        {
            if !target_class.properties[i].is_static {
                self.insert_property(clone_property(&target_class.properties[i]));
            }
            i = i + 1;
        }
    }

    /// Takes over the methods of `target_class` that are neither static nor
    /// its constructor.
    pub fn copy_methods(&mut self, target_class: &ClassValue)
        ensures
            final(self)@.methods == with_inherited_methods(
                old(self)@.methods,
                target_class@.methods,
                target_class@.methods.len() as int,
            ),
            final(self)@.name == old(self)@.name,
            final(self)@.super_class == old(self)@.super_class,
            final(self)@.properties == old(self)@.properties,
    {
        let constructor = String::from_str("__new__");
        let mut i: usize = 0;
        while i < target_class.methods.len()
            invariant
                i <= target_class.methods.len(),
                constructor@ == "__new__"@,
                self@.methods == with_inherited_methods(
                    old(self)@.methods,
                    target_class@.methods,
                    i as int,
                ),
                self@.name == old(self)@.name,
                self@.super_class == old(self)@.super_class,
                self@.properties == old(self)@.properties,
            decreases target_class.methods.len() - i,
        {
            if target_class.methods[i].0 != constructor && !target_class.methods[i].1.is_static {
                self.insert_method(clone_method(&target_class.methods[i].1));
            }
            i = i + 1;
        }
    }

    /// A copy of the first static property called `property_name`.
    pub fn get_static_property(&self, property_name: String) -> (r: Option<ClassProperty>)
        ensures
            match r {
                Some(p) => exists|i: int|
                    is_first_static_property(self@.properties, property_name@, i) && p@
                        == self@.properties[i],
                None => forall|i: int|
                    0 <= i < self@.properties.len() ==> !((#[trigger] self@.properties[i]).name
                        == property_name@ && self@.properties[i].is_static),
            },
    {
        let mut i: usize = 0;
        while i < self.properties.len()
            invariant
                i <= self.properties.len(),
                forall|j: int|
                    0 <= j < i ==> !((#[trigger] self@.properties[j]).name == property_name@
                        && self@.properties[j].is_static),
            decreases self.properties.len() - i,
        {
            if self.properties[i].name == property_name && self.properties[i].is_static {
                let p = clone_property(&self.properties[i]);
                assert(is_first_static_property(self@.properties, property_name@, i as int));
                return Some(p);
            }
            i = i + 1;
        }
        None
    }

    /// A copy of the first static method under `method_name`.
    pub fn get_static_method(&self, method_name: String) -> (r: Option<ClassMethod>)
        ensures
            match r {
                Some(m) => exists|i: int|
                    is_first_static_method(self@.methods, method_name@, i) && m@
                        == self@.methods[i].1,
                None => forall|i: int|
                    0 <= i < self@.methods.len() ==> !((#[trigger] self@.methods[i]).0
                        == method_name@ && self@.methods[i].1.is_static),
            },
    {
        let mut i: usize = 0;
        while i < self.methods.len()
            invariant
                i <= self.methods.len(),
                forall|j: int|
                    0 <= j < i ==> !((#[trigger] self@.methods[j]).0 == method_name@
                        && self@.methods[j].1.is_static),
            decreases self.methods.len() - i,
        {
            if self.methods[i].0 == method_name && self.methods[i].1.is_static {
                let m = clone_method(&self.methods[i].1);
                assert(is_first_static_method(self@.methods, method_name@, i as int));
                return Some(m);
            }
            i = i + 1;
        }
        None
    }
}

} // verus!
