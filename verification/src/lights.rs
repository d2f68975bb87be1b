//! Lights, and the uniforms of a shader program that take their values.
//!
//! A shader program holds each light as a structure of uniforms. A light
//! answers with the names of those uniforms and the values that belong to
//! them, in the order in which they are to be set. `V` is the type of a
//! vector of three scalars and `S` the type of a scalar: the library hands
//! the values on and never computes with them.

use vstd::prelude::*;
use vstd::string::*;

verus! {

/// The name of the uniform that holds the part `field` of the light that the
/// shader program calls `name`.
pub open spec fn field_name(name: Seq<char>, field: Seq<char>) -> Seq<char> {
    name + seq!['.'] + field
}

/// The name of the uniform that holds the part `field` of the light that the
/// shader program calls `name`.
pub fn uniform_field(name: &str, field: &str) -> (uniform: String)
    ensures
        uniform@ == field_name(name@, field@),
{
    proof {
        reveal_strlit(".");
    }
    let mut uniform = String::from_str(name);
    uniform.append(".");
    uniform.append(field);
    uniform
}

/// A light that shines from one direction on every point alike.
#[derive(Debug)]
pub struct DirectionalLight<V> {
    pub direction: V,
    pub ambient: V,
    pub diffuse: V,
    pub specular: V,
}

/// What a uniform of a point light is set to.
#[derive(Debug, PartialEq)]
pub enum LightValue<V, S> {
    Vector(V),
    Scalar(S),
}

/// A light that shines from one point and fades with the distance.
#[derive(Debug)]
pub struct PointLight<V, S> {
    pub position: V,
    pub constant: S,
    pub linear: S,
    pub quadratic: S,
    pub ambient: V,
    pub diffuse: V,
    pub specular: V,
}

impl<V: Copy> DirectionalLight<V> {
    /// The uniforms of the light called `name` and their values, as pairs.
    pub open spec fn uniforms(&self, name: Seq<char>) -> Seq<(Seq<char>, V)> {
        seq![
            (field_name(name, "direction"@), self.direction),
            (field_name(name, "ambient"@), self.ambient),
            (field_name(name, "diffuse"@), self.diffuse),
            (field_name(name, "specular"@), self.specular),
        ]
    }

    /// The light with the given direction and colours.
    pub fn new(direction: V, ambient: V, diffuse: V, specular: V) -> (light: Self)
        ensures
            light.direction == direction,
            light.ambient == ambient,
            light.diffuse == diffuse,
            light.specular == specular,
    {
        Self { direction, ambient, diffuse, specular }
    }

    /// The uniforms that take the light in the shader program that calls it
    /// `name`, each with its value, in the order in which they are set.
    pub fn set_into_shader(&self, name: &str) -> (uniforms: Vec<(String, V)>)
        ensures
            uniforms.len() == 4,
            forall|i: int|
                0 <= i < 4 ==> (#[trigger] uniforms[i]).0@ == self.uniforms(name@)[i].0
                    && uniforms[i].1 == self.uniforms(name@)[i].1,
    {
        let mut uniforms: Vec<(String, V)> = Vec::new();
        uniforms.push((uniform_field(name, "direction"), self.direction));
        uniforms.push((uniform_field(name, "ambient"), self.ambient));
        uniforms.push((uniform_field(name, "diffuse"), self.diffuse));
        uniforms.push((uniform_field(name, "specular"), self.specular));
        uniforms
    }
}

impl<V: Copy, S: Copy> PointLight<V, S> {
    /// The uniforms of the light called `name` and their values, as pairs.
    pub open spec fn uniforms(&self, name: Seq<char>) -> Seq<(Seq<char>, LightValue<V, S>)> {
        seq![
            (field_name(name, "position"@), LightValue::Vector(self.position)),
            (field_name(name, "constant"@), LightValue::Scalar(self.constant)),
            (field_name(name, "linear"@), LightValue::Scalar(self.linear)),
            (field_name(name, "quadratic"@), LightValue::Scalar(self.quadratic)),
            (field_name(name, "ambient"@), LightValue::Vector(self.ambient)),
            (field_name(name, "diffuse"@), LightValue::Vector(self.diffuse)),
            (field_name(name, "specular"@), LightValue::Vector(self.specular)),
        ]
    }

    /// The light at the given position with the given colours and the three
    /// coefficients by which it fades.
    pub fn new(
        position: V,
        ambient: V,
        diffuse: V,
        specular: V,
        constant: S,
        linear: S,
        quadratic: S,
    ) -> (light: Self)
        ensures
            light.position == position,
            light.ambient == ambient,
            light.diffuse == diffuse,
            light.specular == specular,
            light.constant == constant,
            light.linear == linear,
            light.quadratic == quadratic,
    {
        Self { position, ambient, diffuse, specular, constant, linear, quadratic }
    }

    /// The uniforms that take the light in the shader program that calls it
    /// `name`, each with its value, in the order in which they are set.
    pub fn set_into_shader(&self, name: &str) -> (uniforms: Vec<(String, LightValue<V, S>)>)
        ensures
            uniforms.len() == 7,
            forall|i: int|
                0 <= i < 7 ==> (#[trigger] uniforms[i]).0@ == self.uniforms(name@)[i].0
                    && uniforms[i].1 == self.uniforms(name@)[i].1,
    {
        let mut uniforms: Vec<(String, LightValue<V, S>)> = Vec::new();
        uniforms.push((uniform_field(name, "position"), LightValue::Vector(self.position)));
        uniforms.push((uniform_field(name, "constant"), LightValue::Scalar(self.constant)));
        uniforms.push((uniform_field(name, "linear"), LightValue::Scalar(self.linear)));
        uniforms.push((uniform_field(name, "quadratic"), LightValue::Scalar(self.quadratic)));
        uniforms.push((uniform_field(name, "ambient"), LightValue::Vector(self.ambient)));
        uniforms.push((uniform_field(name, "diffuse"), LightValue::Vector(self.diffuse)));
        uniforms.push((uniform_field(name, "specular"), LightValue::Vector(self.specular)));
        uniforms
    }
}

} // verus!
