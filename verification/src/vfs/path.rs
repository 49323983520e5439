//! Paths of the virtual file system: a sequence of components.

use keramics_formats::Path as FormatsPath;
use vstd::prelude::*;

use crate::text::{
    decimal_digit_value, decimal_digits, decimal_value, law_decimal_round_trip,
    lemma_decimal_value_take,
};

verus! {

/// Component of a path.
#[derive(Debug)]
pub enum PathComponent {
    /// The current directory, written ".".
    Current,
    /// The parent directory, written "..".
    Parent,
    /// The root directory.
    Root,
    /// A name.
    String(String),
}

/// Mathematical model of a path component.
pub ghost enum ComponentView {
    Current,
    Parent,
    Root,
    Name(Seq<char>),
}

impl View for PathComponent {
    type V = ComponentView;

    open spec fn view(&self) -> ComponentView {
        match self {
            PathComponent::Current => ComponentView::Current,
            PathComponent::Parent => ComponentView::Parent,
            PathComponent::Root => ComponentView::Root,
            PathComponent::String(name) => ComponentView::Name(name@),
        }
    }
}

/// Path, a sequence of components; an absolute path starts with the root component.
#[derive(Debug)]
pub struct Path {
    pub components: Vec<PathComponent>,
}

impl View for Path {
    type V = Seq<ComponentView>;

    open spec fn view(&self) -> Seq<ComponentView> {
        component_views(self.components@)
    }
}

/// Models of a sequence of components.
pub open spec fn component_views(components: Seq<PathComponent>) -> Seq<ComponentView> {
    components.map_values(|component: PathComponent| component@)
}

/// Text of a component when a path is displayed.
pub open spec fn component_text(component: ComponentView) -> Seq<char> {
    match component {
        ComponentView::Current => "."@,
        ComponentView::Parent => ".."@,
        ComponentView::Root => Seq::empty(),
        ComponentView::Name(name) => name,
    }
}

/// Texts of the components joined by "/".
pub open spec fn joined_text(components: Seq<ComponentView>) -> Seq<char>
    decreases components.len(),
{
    if components.len() == 0 {
        Seq::empty()
    } else if components.len() == 1 {
        component_text(components[0])
    } else {
        joined_text(components.drop_last()) + "/"@ + component_text(components.last())
    }
}

/// Whether a path is relative: it has components and does not start at the root.
pub open spec fn is_relative_path(path: Seq<ComponentView>) -> bool {
    path.len() > 0 && path[0] != ComponentView::Root
}

/// Whether a path is the root alone.
pub open spec fn is_root_path(path: Seq<ComponentView>) -> bool {
    path.len() == 1 && path[0] == ComponentView::Root
}

/// Text of a path: "/" for the root alone, otherwise the joined component texts.
pub open spec fn path_text(path: Seq<ComponentView>) -> Seq<char> {
    if is_root_path(path) {
        "/"@
    } else {
        joined_text(path)
    }
}

/// Parent directory of a path: nothing for an empty path, the current directory for a single
/// non-root component, otherwise the path without its last component.
pub open spec fn parent_directory(path: Seq<ComponentView>) -> Seq<ComponentView> {
    if path.len() == 0 {
        Seq::empty()
    } else if path.len() == 1 && path[0] != ComponentView::Root {
        seq![ComponentView::Current]
    } else {
        path.drop_last()
    }
}

/// Path with a name appended: a trailing current directory component gives way to it.
pub open spec fn with_name_appended(path: Seq<ComponentView>, name: ComponentView) -> Seq<
    ComponentView,
> {
    if path.len() > 0 && path.last() == ComponentView::Current {
        path.drop_last().push(name)
    } else {
        path.push(name)
    }
}

/// Number that follows a prefix in a name: the name is the prefix followed by at least one
/// decimal digit and nothing else.
pub open spec fn numeric_suffix(component: ComponentView, prefix: Seq<char>) -> Option<nat> {
    match component {
        ComponentView::Name(name) => if name.len() > prefix.len() && name.take(
            prefix.len() as int,
        ) == prefix {
            decimal_value(name.skip(prefix.len() as int))
        } else {
            None
        },
        _ => None,
    }
}

/// Name of the entry with a number: the prefix followed by the number in decimal.
pub open spec fn numbered_name(prefix: Seq<char>, number: nat) -> Seq<char> {
    prefix + decimal_digits(number)
}

/// A prefix followed by a number in decimal has that number as its numeric suffix.
pub proof fn law_numeric_suffix_of_numbered_name(prefix: Seq<char>, number: nat)
    ensures
        numeric_suffix(ComponentView::Name(numbered_name(prefix, number)), prefix) == Some(
            number,
        ),
{
    law_decimal_round_trip(number);
    let name: Seq<char> = numbered_name(prefix, number);
    assert(name.take(prefix.len() as int) =~= prefix);
    assert(name.skip(prefix.len() as int) =~= decimal_digits(number));
}

/// Equality of two components, as their models.
pub fn components_equal(first: &PathComponent, second: &PathComponent) -> (equal: bool)
    ensures
        equal == (first@ == second@),
{
    match first {
        PathComponent::Current => second.is_current(),
        PathComponent::Parent => match second {
            PathComponent::Parent => true,
            _ => false,
        },
        PathComponent::Root => second.is_root(),
        PathComponent::String(first_name) => match second {
            PathComponent::String(second_name) => first_name.eq(second_name),
            _ => false,
        },
    }
}

/// Copy of a component.
pub fn copy_component(component: &PathComponent) -> (copy: PathComponent)
    ensures
        copy@ == component@,
{
    match component {
        PathComponent::Current => PathComponent::Current,
        PathComponent::Parent => PathComponent::Parent,
        PathComponent::Root => PathComponent::Root,
        PathComponent::String(name) => PathComponent::String(name.clone()),
    }
}

/// Path of the keramics_formats crate.
#[verifier::external_type_specification]
#[verifier::external_body]
pub struct ExFormatsPath(FormatsPath);

/// Converts a path into one of keramics_formats, component by component.
#[verifier::external_body]
fn formats_path_of(path: &Path) -> FormatsPath {
    FormatsPath {
        components: path.components.iter().map(|component| match component {
            PathComponent::Current => keramics_formats::PathComponent::Current,
            PathComponent::Parent => keramics_formats::PathComponent::Parent,
            PathComponent::Root => keramics_formats::PathComponent::Root,
            PathComponent::String(name) => keramics_formats::PathComponent::String(name.clone()),
        }).collect(),
    }
}

/// Converts a path of keramics_formats, component by component; the paths that joining and
/// taking the parent give hold only the components that went into them.
#[verifier::external_body]
fn path_of_formats(path: FormatsPath) -> Path {
    Path {
        components: path.components.into_iter().map(|component| match component {
            keramics_formats::PathComponent::Current => PathComponent::Current,
            keramics_formats::PathComponent::Parent => PathComponent::Parent,
            keramics_formats::PathComponent::Root => PathComponent::Root,
            keramics_formats::PathComponent::String(name) => PathComponent::String(name),
            other => PathComponent::String(other.to_string()),
        }).collect(),
    }
}

impl PathComponent {
    /// Whether the component is the root component.
    pub fn is_root(&self) -> (root: bool)
        ensures
            root == (self@ == ComponentView::Root),
    {
        match self {
            PathComponent::Root => true,
            _ => false,
        }
    }

    /// Whether the component is the current directory component.
    pub fn is_current(&self) -> (current: bool)
        ensures
            current == (self@ == ComponentView::Current),
    {
        match self {
            PathComponent::Current => true,
            _ => false,
        }
    }
}

} // verus!

verus! {

impl Path {
    /// Creates a path from its components.
    pub fn from_components(components: Vec<PathComponent>) -> (path: Path)
        ensures
            path.components@ == components@,
    {
        Path { components }
    }

    /// Retrieves the number of components.
    pub fn get_number_of_components(&self) -> (count: usize)
        ensures
            count == self@.len(),
    {
        self.components.len()
    }

    /// Retrieves a component by its index.
    pub fn get_component_by_index(&self, component_index: usize) -> (component: Option<
        &PathComponent,
    >)
        ensures
            component_index < self@.len() ==> (component matches Some(c) && c@
                == self@[component_index as int]),
            component_index >= self@.len() ==> component is None,
    {
        if component_index < self.components.len() {
            Some(&self.components[component_index])
        } else {
            None
        }
    }

    /// Determines if the path has no components.
    pub fn is_empty(&self) -> (empty: bool)
        ensures
            empty == (self@.len() == 0),
    {
        self.components.len() == 0
    }

    /// Determines if the path is relative: it has components and the first is not the root.
    pub fn is_relative(&self) -> (relative: bool)
        ensures
            relative == is_relative_path(self@),
    {
        self.components.len() > 0 && !self.components[0].is_root()
    }

    /// Determines if the path is the root alone.
    pub fn is_root(&self) -> (root: bool)
        ensures
            root == is_root_path(self@),
    {
        self.components.len() == 1 && self.components[0].is_root()
    }

    /// Retrieves the file name: the last component, unless the path is empty or ends at the
    /// root.
    pub fn file_name(&self) -> (name: Option<&PathComponent>)
        ensures
            (self@.len() == 0 || self@.last() == ComponentView::Root) ==> name is None,
            (self@.len() > 0 && self@.last() != ComponentView::Root) ==> (name matches Some(c)
                && c@ == self@.last()),
    {
        let number_of_components: usize = self.components.len();
        if number_of_components == 0 {
            None
        } else {
            let last_component: &PathComponent = &self.components[number_of_components - 1];
            if last_component.is_root() {
                None
            } else {
                Some(last_component)
            }
        }
    }

    /// Appends a component.
    pub fn push(&mut self, component: PathComponent)
        ensures
            final(self)@ == old(self)@.push(component@),
    {
        self.components.push(component);
        assert(self@ =~= old(self)@.push(component@));
    }

    /// Removes and returns the last component.
    pub fn pop(&mut self) -> (component: Option<PathComponent>)
        ensures
            old(self)@.len() == 0 ==> component is None && final(self)@ == old(self)@,
            old(self)@.len() > 0 ==> (component matches Some(c) && c@ == old(self)@.last()
                && final(self)@ == old(self)@.drop_last()),
    {
        let component: Option<PathComponent> = self.components.pop();
        proof {
            if old(self)@.len() > 0 {
                assert(self@ =~= old(self)@.drop_last());
            } else {
                assert(self@ =~= old(self)@);
            }
        }
        component
    }

    /// Creates a copy of the path.
    pub fn copy(&self) -> (path: Path)
        ensures
            path@ == self@,
    {
        let mut components: Vec<PathComponent> = Vec::new();
        let mut index: usize = 0;
        while index < self.components.len()
            invariant
                index <= self.components.len(),
                components@.len() == index,
                component_views(components@) =~= self@.take(
                    index as int,
                ),
            decreases self.components.len() - index,
        {
            let component: PathComponent = copy_component(&self.components[index]);
            let ghost previous: Seq<PathComponent> = components@;
            components.push(component);
            assert(components@ == previous.push(component));
            assert(component_views(components@)[index as int]
                == self@[index as int]);
            index += 1;
            assert(component_views(components@) =~= self@.take(
                index as int,
            ));
        }
        assert(self@.take(index as int) =~= self@);
        Path { components }
    }

    /// Creates the path of the parent directory with
    /// `keramics_formats::Path::new_with_parent_directory`: nothing for an empty path, the
    /// current directory for a single component other than the root, and otherwise the path
    /// without its last component, as its source shows.
    #[verifier::external_body]
    pub fn new_with_parent_directory(&self) -> (parent: Path)
        ensures
            parent@ == parent_directory(self@),
    {
        path_of_formats(formats_path_of(self).new_with_parent_directory())
    }

    /// Creates the path with a name appended, where a trailing current directory component
    /// gives way to the name.
    pub fn new_with_name(&self, name: PathComponent) -> (path: Path)
        ensures
            path@ == with_name_appended(self@, name@),
    {
        let mut path: Path = self.copy();
        let number_of_components: usize = path.components.len();
        if number_of_components > 0 && path.components[number_of_components - 1].is_current() {
            let _ = path.pop();
        }
        path.push(name);
        path
    }

    /// Determines if two paths have the same components.
    pub fn equals(&self, other: &Path) -> (equal: bool)
        ensures
            equal == (self@ == other@),
    {
        if self.components.len() != other.components.len() {
            assert(self@.len() != other@.len());
            return false;
        }
        let mut index: usize = 0;
        while index < self.components.len()
            invariant
                index <= self.components.len(),
                self.components.len() == other.components.len(),
                forall|i: int| 0 <= i < index ==> self@[i] == other@[i],
            decreases self.components.len() - index,
        {
            if !components_equal(&self.components[index], &other.components[index]) {
                assert(self@[index as int] != other@[index as int]);
                return false;
            }
            index += 1;
        }
        assert(self@ =~= other@);
        true
    }

    /// Text of the path: "/" for the root alone, otherwise the component texts joined by "/".
    pub fn to_string(&self) -> (text: String)
        ensures
            text@ == path_text(self@),
    {
        let mut text: String = String::new();
        if self.is_root() {
            crate::text::push_str(&mut text, "/");
            proof {
                reveal_strlit("/");
            }
            return text;
        }
        let mut index: usize = 0;
        while index < self.components.len()
            invariant
                index <= self.components.len(),
                text@ == joined_text(self@.take(index as int)),
            decreases self.components.len() - index,
        {
            if index > 0 {
                crate::text::push_str(&mut text, "/");
            }
            match &self.components[index] {
                PathComponent::Current => crate::text::push_str(&mut text, "."),
                PathComponent::Parent => crate::text::push_str(&mut text, ".."),
                PathComponent::Root => {},
                PathComponent::String(name) => crate::text::push_str(&mut text, name.as_str()),
            }
            proof {
                reveal_strlit("/");
                reveal_strlit(".");
                reveal_strlit("..");
                assert(self@.take(index + 1).drop_last() =~= self@.take(index as int));
            }
            index += 1;
        }
        assert(self@.take(index as int) =~= self@);
        text
    }
}

impl PartialEq for PathComponent {
    fn eq(&self, other: &PathComponent) -> (equal: bool) {
        components_equal(self, other)
    }
}

impl vstd::std_specs::cmp::PartialEqSpecImpl for PathComponent {
    open spec fn obeys_eq_spec() -> bool {
        true
    }

    open spec fn eq_spec(&self, other: &PathComponent) -> bool {
        self@ == other@
    }
}

impl PartialEq for Path {
    fn eq(&self, other: &Path) -> (equal: bool) {
        self.equals(other)
    }
}

impl vstd::std_specs::cmp::PartialEqSpecImpl for Path {
    open spec fn obeys_eq_spec() -> bool {
        true
    }

    open spec fn eq_spec(&self, other: &Path) -> bool {
        self@ == other@
    }
}

} // verus!

verus! {

/// A number that fits in `usize`, or nothing.
pub open spec fn fitting_usize(value: Option<nat>) -> Option<usize> {
    match value {
        Some(number) => if number <= usize::MAX {
            Some(number as usize)
        } else {
            None
        },
        None => None,
    }
}

impl Path {
    /// Retrieves the number that follows a prefix in a name component: the name must be the
    /// prefix followed by at least one decimal digit and nothing else, and the number must fit
    /// in `usize`.
    pub fn get_numeric_suffix(component: &PathComponent, prefix: &str) -> (suffix: Option<usize>)
        ensures
            suffix == fitting_usize(numeric_suffix(component@, prefix@)),
    {
        let name: &str = match component {
            PathComponent::String(name) => name.as_str(),
            _ => return None,
        };
        assert(component@ == ComponentView::Name(name@));
        let name_length: usize = name.unicode_len();
        let prefix_length: usize = prefix.unicode_len();
        if name_length <= prefix_length {
            return None;
        }
        let mut index: usize = 0;
        while index < prefix_length
            invariant
                index <= prefix_length < name_length,
                name_length == name@.len(),
                prefix_length == prefix@.len(),
                name@.take(index as int) =~= prefix@.take(index as int),
                component@ == ComponentView::Name(name@),
            decreases prefix_length - index,
        {
            if name.get_char(index) != prefix.get_char(index) {
                assert(name@.take(prefix_length as int)[index as int] != prefix@[index as int]);
                assert(name@.take(prefix_length as int) != prefix@);
                return None;
            }
            index += 1;
            assert(name@.take(index as int) =~= prefix@.take(index as int));
        }
        assert(prefix@.take(prefix_length as int) =~= prefix@);
        let ghost digits: Seq<char> = name@.skip(prefix_length as int);
        let mut value: usize = 0;
        while index < name_length
            invariant
                prefix_length <= index <= name_length,
                name_length == name@.len(),
                prefix_length == prefix@.len(),
                digits == name@.skip(prefix_length as int),
                name@.take(prefix_length as int) == prefix@,
                component@ == ComponentView::Name(name@),
                decimal_value(digits.take(index - prefix_length)) == Some(value as nat),
            decreases name_length - index,
        {
            let ghost count: int = index - prefix_length + 1;
            let character: char = name.get_char(index);
            assert(digits.take(count).drop_last() =~= digits.take(count - 1));
            assert(digits.take(count).last() == character);
            let digit: u32 = match decimal_digit_value(character) {
                Some(digit) => digit,
                None => {
                    proof {
                        if decimal_value(digits) is Some {
                            lemma_decimal_value_take(digits, count);
                        }
                    }
                    return None;
                },
            };
            let next: Option<usize> = match value.checked_mul(10) {
                Some(scaled) => scaled.checked_add(digit as usize),
                None => None,
            };
            match next {
                Some(next_value) => {
                    value = next_value;
                },
                None => {
                    proof {
                        if decimal_value(digits) is Some {
                            lemma_decimal_value_take(digits, count);
                        }
                    }
                    return None;
                },
            }
            index += 1;
        }
        assert(digits.take(index - prefix_length) =~= digits);
        Some(value)
    }
}

} // verus!

verus! {

/// Component that a name stands for: "." is the current directory, ".." the parent
/// directory, anything else a name.
pub open spec fn component_of_name(name: Seq<char>) -> ComponentView {
    if name == "."@ {
        ComponentView::Current
    } else if name == ".."@ {
        ComponentView::Parent
    } else {
        ComponentView::Name(name)
    }
}

/// Path joined with one component. The current directory is kept only in an empty path;
/// the parent directory removes the last name, replaces a trailing current directory, stops
/// at the root and accumulates after other parent directories; the root is ignored; a name
/// replaces a trailing current directory and is appended.
pub open spec fn joined_with_component(path: Seq<ComponentView>, component: ComponentView) -> Seq<
    ComponentView,
> {
    match component {
        ComponentView::Current => if path.len() == 0 {
            seq![ComponentView::Current]
        } else {
            path
        },
        ComponentView::Parent => if path.len() == 0 || path.last() == ComponentView::Parent {
            path.push(ComponentView::Parent)
        } else if path.last() == ComponentView::Current {
            path.drop_last().push(ComponentView::Parent)
        } else if path.last() == ComponentView::Root {
            path
        } else {
            path.drop_last()
        },
        ComponentView::Root => path,
        ComponentView::Name(_) => with_name_appended(path, component),
    }
}

/// Whether a string is the given short ASCII text.
fn str_is(text: &str, expected: &str) -> (equal: bool)
    ensures
        equal == (text@ == expected@),
{
    let length: usize = text.unicode_len();
    if length != expected.unicode_len() {
        return false;
    }
    let mut index: usize = 0;
    while index < length
        invariant
            index <= length,
            length == text@.len(),
            length == expected@.len(),
            text@.take(index as int) =~= expected@.take(index as int),
        decreases length - index,
    {
        if text.get_char(index) != expected.get_char(index) {
            return false;
        }
        index += 1;
        assert(text@.take(index as int) =~= expected@.take(index as int));
    }
    assert(text@ =~= text@.take(length as int));
    assert(expected@ =~= expected@.take(length as int));
    true
}

impl PathComponent {
    /// Creates the component that a name stands for: "." is the current directory, ".." the
    /// parent directory, anything else a name.
    pub fn from_name(name: &str) -> (component: PathComponent)
        ensures
            component@ == component_of_name(name@),
    {
        if str_is(name, ".") {
            PathComponent::Current
        } else if str_is(name, "..") {
            PathComponent::Parent
        } else {
            PathComponent::String(name.to_owned())
        }
    }
}

impl Path {
    /// Creates the path joined with one component with
    /// `keramics_formats::Path::new_with_join_path_components`, which joins as
    /// `joined_with_component` says, as its source shows.
    #[verifier::external_body]
    pub fn new_with_join_component(&self, component: &PathComponent) -> (path: Path)
        ensures
            path@ == joined_with_component(self@, component@),
    {
        let joined: FormatsPath = formats_path_of(
            &Path { components: vec![copy_component(component)] },
        );
        path_of_formats(formats_path_of(self).new_with_join_path_components(&joined.components))
    }
}

} // verus!

verus! {

/// Path joined with components, one after the other.
pub open spec fn joined_with_components(path: Seq<ComponentView>, components: Seq<ComponentView>) -> Seq<ComponentView>
    decreases components.len(),
{
    if components.len() == 0 {
        path
    } else {
        joined_with_component(joined_with_components(path, components.drop_last()), components.last())
    }
}

impl Path {
    /// Creates the path joined with components, one after the other, with
    /// `keramics_formats::Path::new_with_join_path_components`, which joins each as
    /// `joined_with_component` says, as its source shows.
    #[verifier::external_body]
    pub fn new_with_join_path_components(&self, path_components: &[PathComponent]) -> (path: Path)
        ensures
            path@ == joined_with_components(self@, component_views(path_components@)),
    {
        let joined: FormatsPath = formats_path_of(
            &Path { components: path_components.iter().map(copy_component).collect() },
        );
        path_of_formats(formats_path_of(self).new_with_join_path_components(&joined.components))
    }
}

} // verus!

verus! {

/// Joining components one batch after another is joining them all at once.
pub proof fn law_join_components_concat(
    path: Seq<ComponentView>,
    first: Seq<ComponentView>,
    second: Seq<ComponentView>,
)
    ensures
        joined_with_components(joined_with_components(path, first), second)
            == joined_with_components(path, first + second),
    decreases second.len(),
{
    if second.len() == 0 {
        assert(first + second =~= first);
    } else {
        law_join_components_concat(path, first, second.drop_last());
        assert((first + second).drop_last() =~= first + second.drop_last());
        assert((first + second).last() == second.last());
    }
}

/// The parent directory of a path with a name appended is the path itself, for a path
/// that is not empty and does not end at the current directory.
pub proof fn law_parent_of_appended_name(path: Seq<ComponentView>, name: Seq<char>)
    requires
        path.len() > 0,
        path.last() != ComponentView::Current,
    ensures
        parent_directory(with_name_appended(path, ComponentView::Name(name))) == path,
{
    assert(path.push(ComponentView::Name(name)).drop_last() =~= path);
}

} // verus!
