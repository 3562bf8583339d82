//! The coordinates of each entity by position.
use crate::algebra::{lemma_times_zero, lemma_zero_vector};
use crate::entity::{all_zero, lemma_sum_of_squares_push, sum_of_squares, GeometricEntity};
use crate::model::Vector;
use crate::types::{
    Direction, Horizon, Line, LineDirection, LineMoment, Origin, Plane, PlaneDirection, Point3,
    Point4,
};
use vstd::prelude::*;

verus! {

/// The coordinates are `x`, `y`, `z`, `w`, in this order.
impl GeometricEntity for Point4 {
    open spec fn coordinates(&self) -> Seq<int> {
        seq![self.x as int, self.y as int, self.z as int, self.w as int]
    }

    open spec fn dimension() -> nat {
        4
    }

    open spec fn stored(i: int) -> bool {
        true
    }

    open spec fn implicit(i: int) -> int {
        0
    }

    proof fn lemma_shape(&self) {
    }

    fn blade_count() -> (n: usize) {
        4
    }

    fn zero() -> (r: Point4) {
        Point4 { x: 0, y: 0, z: 0, w: 0 }
    }

    fn coordinate(&self, i: usize) -> (r: i64) {
        if i == 0 {
            self.x
        } else if i == 1 {
            self.y
        } else if i == 2 {
            self.z
        } else {
            self.w
        }
    }

    fn set_coordinate(&mut self, i: usize, value: i64) {
        if i == 0 {
            self.x = value;
        } else if i == 1 {
            self.y = value;
        } else if i == 2 {
            self.z = value;
        } else {
            self.w = value;
        }
        assert(self.coordinates() =~= old(self).coordinates().update(i as int, value as int));
    }
}

/// The coordinates are the weight, which is always one and is not stored, then
/// `x`, `y`, `z`.
impl GeometricEntity for Point3 {
    open spec fn coordinates(&self) -> Seq<int> {
        seq![1int, self.x as int, self.y as int, self.z as int]
    }

    open spec fn dimension() -> nat {
        4
    }

    open spec fn stored(i: int) -> bool {
        i != 0
    }

    open spec fn implicit(i: int) -> int {
        1
    }

    proof fn lemma_shape(&self) {
    }

    fn blade_count() -> (n: usize) {
        4
    }

    fn zero() -> (r: Point3) {
        Point3 { x: 0, y: 0, z: 0 }
    }

    fn coordinate(&self, i: usize) -> (r: i64) {
        if i == 0 {
            1
        } else if i == 1 {
            self.x
        } else if i == 2 {
            self.y
        } else {
            self.z
        }
    }

    fn set_coordinate(&mut self, i: usize, value: i64) {
        if i == 1 {
            self.x = value;
        } else if i == 2 {
            self.y = value;
        } else if i == 3 {
            self.z = value;
        }
        if i != 0 {
            assert(self.coordinates() =~= old(self).coordinates().update(i as int, value as int));
        }
    }
}

/// The coordinates are `x`, `y`, `z`, in this order.
impl GeometricEntity for Direction {
    open spec fn coordinates(&self) -> Seq<int> {
        seq![self.x as int, self.y as int, self.z as int]
    }

    open spec fn dimension() -> nat {
        3
    }

    open spec fn stored(i: int) -> bool {
        true
    }

    open spec fn implicit(i: int) -> int {
        0
    }

    proof fn lemma_shape(&self) {
    }

    fn blade_count() -> (n: usize) {
        3
    }

    fn zero() -> (r: Direction) {
        Direction { x: 0, y: 0, z: 0 }
    }

    fn coordinate(&self, i: usize) -> (r: i64) {
        if i == 0 {
            self.x
        } else if i == 1 {
            self.y
        } else {
            self.z
        }
    }

    fn set_coordinate(&mut self, i: usize, value: i64) {
        if i == 0 {
            self.x = value;
        } else if i == 1 {
            self.y = value;
        } else {
            self.z = value;
        }
        assert(self.coordinates() =~= old(self).coordinates().update(i as int, value as int));
    }
}

/// The one coordinate is `w`.
impl GeometricEntity for Origin {
    open spec fn coordinates(&self) -> Seq<int> {
        seq![self.w as int]
    }

    open spec fn dimension() -> nat {
        1
    }

    open spec fn stored(i: int) -> bool {
        true
    }

    open spec fn implicit(i: int) -> int {
        0
    }

    proof fn lemma_shape(&self) {
    }

    fn blade_count() -> (n: usize) {
        1
    }

    fn zero() -> (r: Origin) {
        Origin { w: 0 }
    }

    fn coordinate(&self, i: usize) -> (r: i64) {
        self.w
    }

    fn set_coordinate(&mut self, i: usize, value: i64) {
        self.w = value;
        assert(self.coordinates() =~= old(self).coordinates().update(i as int, value as int));
    }
}

/// The coordinates are `vx`, `vy`, `vz`, `mx`, `my`, `mz`, in this order.
impl GeometricEntity for Line {
    open spec fn coordinates(&self) -> Seq<int> {
        seq![
            self.vx as int,
            self.vy as int,
            self.vz as int,
            self.mx as int,
            self.my as int,
            self.mz as int,
        ]
    }

    open spec fn dimension() -> nat {
        6
    }

    open spec fn stored(i: int) -> bool {
        true
    }

    open spec fn implicit(i: int) -> int {
        0
    }

    proof fn lemma_shape(&self) {
    }

    fn blade_count() -> (n: usize) {
        6
    }

    fn zero() -> (r: Line) {
        Line { vx: 0, vy: 0, vz: 0, mx: 0, my: 0, mz: 0 }
    }

    fn coordinate(&self, i: usize) -> (r: i64) {
        if i == 0 {
            self.vx
        } else if i == 1 {
            self.vy
        } else if i == 2 {
            self.vz
        } else if i == 3 {
            self.mx
        } else if i == 4 {
            self.my
        } else {
            self.mz
        }
    }

    fn set_coordinate(&mut self, i: usize, value: i64) {
        if i == 0 {
            self.vx = value;
        } else if i == 1 {
            self.vy = value;
        } else if i == 2 {
            self.vz = value;
        } else if i == 3 {
            self.mx = value;
        } else if i == 4 {
            self.my = value;
        } else {
            self.mz = value;
        }
        assert(self.coordinates() =~= old(self).coordinates().update(i as int, value as int));
    }
}

/// The coordinates are `x`, `y`, `z`, in this order.
impl GeometricEntity for LineDirection {
    open spec fn coordinates(&self) -> Seq<int> {
        seq![self.x as int, self.y as int, self.z as int]
    }

    open spec fn dimension() -> nat {
        3
    }

    open spec fn stored(i: int) -> bool {
        true
    }

    open spec fn implicit(i: int) -> int {
        0
    }

    proof fn lemma_shape(&self) {
    }

    fn blade_count() -> (n: usize) {
        3
    }

    fn zero() -> (r: LineDirection) {
        LineDirection { x: 0, y: 0, z: 0 }
    }

    fn coordinate(&self, i: usize) -> (r: i64) {
        if i == 0 {
            self.x
        } else if i == 1 {
            self.y
        } else {
            self.z
        }
    }

    fn set_coordinate(&mut self, i: usize, value: i64) {
        if i == 0 {
            self.x = value;
        } else if i == 1 {
            self.y = value;
        } else {
            self.z = value;
        }
        assert(self.coordinates() =~= old(self).coordinates().update(i as int, value as int));
    }
}

/// The coordinates are `x`, `y`, `z`, in this order.
impl GeometricEntity for LineMoment {
    open spec fn coordinates(&self) -> Seq<int> {
        seq![self.x as int, self.y as int, self.z as int]
    }

    open spec fn dimension() -> nat {
        3
    }

    open spec fn stored(i: int) -> bool {
        true
    }

    open spec fn implicit(i: int) -> int {
        0
    }

    proof fn lemma_shape(&self) {
    }

    fn blade_count() -> (n: usize) {
        3
    }

    fn zero() -> (r: LineMoment) {
        LineMoment { x: 0, y: 0, z: 0 }
    }

    fn coordinate(&self, i: usize) -> (r: i64) {
        if i == 0 {
            self.x
        } else if i == 1 {
            self.y
        } else {
            self.z
        }
    }

    fn set_coordinate(&mut self, i: usize, value: i64) {
        if i == 0 {
            self.x = value;
        } else if i == 1 {
            self.y = value;
        } else {
            self.z = value;
        }
        assert(self.coordinates() =~= old(self).coordinates().update(i as int, value as int));
    }
}

/// The coordinates are `x`, `y`, `z`, `w`, in this order.
impl GeometricEntity for Plane {
    open spec fn coordinates(&self) -> Seq<int> {
        seq![self.x as int, self.y as int, self.z as int, self.w as int]
    }

    open spec fn dimension() -> nat {
        4
    }

    open spec fn stored(i: int) -> bool {
        true
    }

    open spec fn implicit(i: int) -> int {
        0
    }

    proof fn lemma_shape(&self) {
    }

    fn blade_count() -> (n: usize) {
        4
    }

    fn zero() -> (r: Plane) {
        Plane { x: 0, y: 0, z: 0, w: 0 }
    }

    fn coordinate(&self, i: usize) -> (r: i64) {
        if i == 0 {
            self.x
        } else if i == 1 {
            self.y
        } else if i == 2 {
            self.z
        } else {
            self.w
        }
    }

    fn set_coordinate(&mut self, i: usize, value: i64) {
        if i == 0 {
            self.x = value;
        } else if i == 1 {
            self.y = value;
        } else if i == 2 {
            self.z = value;
        } else {
            self.w = value;
        }
        assert(self.coordinates() =~= old(self).coordinates().update(i as int, value as int));
    }
}

/// The coordinates are `x`, `y`, `z`, in this order.
impl GeometricEntity for PlaneDirection {
    open spec fn coordinates(&self) -> Seq<int> {
        seq![self.x as int, self.y as int, self.z as int]
    }

    open spec fn dimension() -> nat {
        3
    }

    open spec fn stored(i: int) -> bool {
        true
    }

    open spec fn implicit(i: int) -> int {
        0
    }

    proof fn lemma_shape(&self) {
    }

    fn blade_count() -> (n: usize) {
        3
    }

    fn zero() -> (r: PlaneDirection) {
        PlaneDirection { x: 0, y: 0, z: 0 }
    }

    fn coordinate(&self, i: usize) -> (r: i64) {
        if i == 0 {
            self.x
        } else if i == 1 {
            self.y
        } else {
            self.z
        }
    }

    fn set_coordinate(&mut self, i: usize, value: i64) {
        if i == 0 {
            self.x = value;
        } else if i == 1 {
            self.y = value;
        } else {
            self.z = value;
        }
        assert(self.coordinates() =~= old(self).coordinates().update(i as int, value as int));
    }
}

/// The one coordinate is `w`.
impl GeometricEntity for Horizon {
    open spec fn coordinates(&self) -> Seq<int> {
        seq![self.w as int]
    }

    open spec fn dimension() -> nat {
        1
    }

    open spec fn stored(i: int) -> bool {
        true
    }

    open spec fn implicit(i: int) -> int {
        0
    }

    proof fn lemma_shape(&self) {
    }

    fn blade_count() -> (n: usize) {
        1
    }

    fn zero() -> (r: Horizon) {
        Horizon { w: 0 }
    }

    fn coordinate(&self, i: usize) -> (r: i64) {
        self.w
    }

    fn set_coordinate(&mut self, i: usize, value: i64) {
        self.w = value;
        assert(self.coordinates() =~= old(self).coordinates().update(i as int, value as int));
    }
}

impl Point4 {
    /// The coordinates by position agree with the view: they have the same
    /// length, and all of them are zero exactly when the view is zero.
    pub proof fn lemma_coordinates(self)
        ensures
            sum_of_squares(self.coordinates()) == self@.length_squared(),
            all_zero(self.coordinates()) <==> self@.is_zero(),
    {
        let s0 = Seq::<int>::empty();
        let s1 = s0.push(self.x as int);
        let s2 = s1.push(self.y as int);
        let s3 = s2.push(self.z as int);
        let s4 = s3.push(self.w as int);
        lemma_sum_of_squares_push(s0, self.x as int);
        lemma_sum_of_squares_push(s1, self.y as int);
        lemma_sum_of_squares_push(s2, self.z as int);
        lemma_sum_of_squares_push(s3, self.w as int);
        assert(self.coordinates() =~= s4);
        if self@.is_zero() {
            assert(all_zero(self.coordinates()));
        }
        if all_zero(self.coordinates()) {
            assert(self.coordinates()[0] == 0);
            assert(self.coordinates()[1] == 0);
            assert(self.coordinates()[2] == 0);
            assert(self.coordinates()[3] == 0);
        }
    }
}

impl Point3 {
    /// The coordinates by position agree with the view: they have the same
    /// length, and all of them are zero exactly when the view is zero.
    pub proof fn lemma_coordinates(self)
        ensures
            sum_of_squares(self.coordinates()) == self@.length_squared(),
            all_zero(self.coordinates()) <==> self@.is_zero(),
    {
        let s0 = Seq::<int>::empty();
        let s1 = s0.push(1int);
        let s2 = s1.push(self.x as int);
        let s3 = s2.push(self.y as int);
        let s4 = s3.push(self.z as int);
        lemma_sum_of_squares_push(s0, 1int);
        lemma_sum_of_squares_push(s1, self.x as int);
        lemma_sum_of_squares_push(s2, self.y as int);
        lemma_sum_of_squares_push(s3, self.z as int);
        assert(self.coordinates() =~= s4);
        if self@.is_zero() {
            assert(all_zero(self.coordinates()));
        }
        if all_zero(self.coordinates()) {
            assert(self.coordinates()[0] == 0);
            assert(self.coordinates()[1] == 0);
            assert(self.coordinates()[2] == 0);
            assert(self.coordinates()[3] == 0);
        }
    }
}

impl Direction {
    /// The coordinates by position agree with the view: they have the same
    /// length, and all of them are zero exactly when the view is zero.
    pub proof fn lemma_coordinates(self)
        ensures
            sum_of_squares(self.coordinates()) == self@.length_squared(),
            all_zero(self.coordinates()) <==> self@.is_zero(),
    {
        let s0 = Seq::<int>::empty();
        let s1 = s0.push(self.x as int);
        let s2 = s1.push(self.y as int);
        let s3 = s2.push(self.z as int);
        lemma_sum_of_squares_push(s0, self.x as int);
        lemma_sum_of_squares_push(s1, self.y as int);
        lemma_sum_of_squares_push(s2, self.z as int);
        assert(self.coordinates() =~= s3);
        lemma_times_zero(0, 0);
        if self@.is_zero() {
            assert(all_zero(self.coordinates()));
        }
        if all_zero(self.coordinates()) {
            assert(self.coordinates()[0] == 0);
            assert(self.coordinates()[1] == 0);
            assert(self.coordinates()[2] == 0);
        }
    }
}

impl Origin {
    /// The coordinates by position agree with the view: they have the same
    /// length, and all of them are zero exactly when the view is zero.
    pub proof fn lemma_coordinates(self)
        ensures
            sum_of_squares(self.coordinates()) == self@.length_squared(),
            all_zero(self.coordinates()) <==> self@.is_zero(),
    {
        let s0 = Seq::<int>::empty();
        let s1 = s0.push(self.w as int);
        lemma_sum_of_squares_push(s0, self.w as int);
        assert(self.coordinates() =~= s1);
        lemma_zero_vector(Vector::zero());
        if self@.is_zero() {
            assert(all_zero(self.coordinates()));
        }
        if all_zero(self.coordinates()) {
            assert(self.coordinates()[0] == 0);
        }
    }
}

impl Line {
    /// The coordinates by position agree with the view: they have the same
    /// length, and all of them are zero exactly when the view is zero.
    pub proof fn lemma_coordinates(self)
        ensures
            sum_of_squares(self.coordinates()) == self@.length_squared(),
            all_zero(self.coordinates()) <==> self@.is_zero(),
    {
        let s0 = Seq::<int>::empty();
        let s1 = s0.push(self.vx as int);
        let s2 = s1.push(self.vy as int);
        let s3 = s2.push(self.vz as int);
        let s4 = s3.push(self.mx as int);
        let s5 = s4.push(self.my as int);
        let s6 = s5.push(self.mz as int);
        lemma_sum_of_squares_push(s0, self.vx as int);
        lemma_sum_of_squares_push(s1, self.vy as int);
        lemma_sum_of_squares_push(s2, self.vz as int);
        lemma_sum_of_squares_push(s3, self.mx as int);
        lemma_sum_of_squares_push(s4, self.my as int);
        lemma_sum_of_squares_push(s5, self.mz as int);
        assert(self.coordinates() =~= s6);
        if self@.is_zero() {
            assert(all_zero(self.coordinates()));
        }
        if all_zero(self.coordinates()) {
            assert(self.coordinates()[0] == 0);
            assert(self.coordinates()[1] == 0);
            assert(self.coordinates()[2] == 0);
            assert(self.coordinates()[3] == 0);
            assert(self.coordinates()[4] == 0);
            assert(self.coordinates()[5] == 0);
        }
    }
}

impl LineDirection {
    /// The coordinates by position agree with the view: they have the same
    /// length, and all of them are zero exactly when the view is zero.
    pub proof fn lemma_coordinates(self)
        ensures
            sum_of_squares(self.coordinates()) == self@.length_squared(),
            all_zero(self.coordinates()) <==> self@.is_zero(),
    {
        let s0 = Seq::<int>::empty();
        let s1 = s0.push(self.x as int);
        let s2 = s1.push(self.y as int);
        let s3 = s2.push(self.z as int);
        lemma_sum_of_squares_push(s0, self.x as int);
        lemma_sum_of_squares_push(s1, self.y as int);
        lemma_sum_of_squares_push(s2, self.z as int);
        assert(self.coordinates() =~= s3);
        lemma_zero_vector(Vector::zero());
        if self@.is_zero() {
            assert(all_zero(self.coordinates()));
        }
        if all_zero(self.coordinates()) {
            assert(self.coordinates()[0] == 0);
            assert(self.coordinates()[1] == 0);
            assert(self.coordinates()[2] == 0);
        }
    }
}

impl LineMoment {
    /// The coordinates by position agree with the view: they have the same
    /// length, and all of them are zero exactly when the view is zero.
    pub proof fn lemma_coordinates(self)
        ensures
            sum_of_squares(self.coordinates()) == self@.length_squared(),
            all_zero(self.coordinates()) <==> self@.is_zero(),
    {
        let s0 = Seq::<int>::empty();
        let s1 = s0.push(self.x as int);
        let s2 = s1.push(self.y as int);
        let s3 = s2.push(self.z as int);
        lemma_sum_of_squares_push(s0, self.x as int);
        lemma_sum_of_squares_push(s1, self.y as int);
        lemma_sum_of_squares_push(s2, self.z as int);
        assert(self.coordinates() =~= s3);
        lemma_zero_vector(Vector::zero());
        if self@.is_zero() {
            assert(all_zero(self.coordinates()));
        }
        if all_zero(self.coordinates()) {
            assert(self.coordinates()[0] == 0);
            assert(self.coordinates()[1] == 0);
            assert(self.coordinates()[2] == 0);
        }
    }
}

impl Plane {
    /// The coordinates by position agree with the view: they have the same
    /// length, and all of them are zero exactly when the view is zero.
    pub proof fn lemma_coordinates(self)
        ensures
            sum_of_squares(self.coordinates()) == self@.length_squared(),
            all_zero(self.coordinates()) <==> self@.is_zero(),
    {
        let s0 = Seq::<int>::empty();
        let s1 = s0.push(self.x as int);
        let s2 = s1.push(self.y as int);
        let s3 = s2.push(self.z as int);
        let s4 = s3.push(self.w as int);
        lemma_sum_of_squares_push(s0, self.x as int);
        lemma_sum_of_squares_push(s1, self.y as int);
        lemma_sum_of_squares_push(s2, self.z as int);
        lemma_sum_of_squares_push(s3, self.w as int);
        assert(self.coordinates() =~= s4);
        if self@.is_zero() {
            assert(all_zero(self.coordinates()));
        }
        if all_zero(self.coordinates()) {
            assert(self.coordinates()[0] == 0);
            assert(self.coordinates()[1] == 0);
            assert(self.coordinates()[2] == 0);
            assert(self.coordinates()[3] == 0);
        }
    }
}

impl PlaneDirection {
    /// The coordinates by position agree with the view: they have the same
    /// length, and all of them are zero exactly when the view is zero.
    pub proof fn lemma_coordinates(self)
        ensures
            sum_of_squares(self.coordinates()) == self@.length_squared(),
            all_zero(self.coordinates()) <==> self@.is_zero(),
    {
        let s0 = Seq::<int>::empty();
        let s1 = s0.push(self.x as int);
        let s2 = s1.push(self.y as int);
        let s3 = s2.push(self.z as int);
        lemma_sum_of_squares_push(s0, self.x as int);
        lemma_sum_of_squares_push(s1, self.y as int);
        lemma_sum_of_squares_push(s2, self.z as int);
        assert(self.coordinates() =~= s3);
        lemma_times_zero(0, 0);
        if self@.is_zero() {
            assert(all_zero(self.coordinates()));
        }
        if all_zero(self.coordinates()) {
            assert(self.coordinates()[0] == 0);
            assert(self.coordinates()[1] == 0);
            assert(self.coordinates()[2] == 0);
        }
    }
}

impl Horizon {
    /// The coordinates by position agree with the view: they have the same
    /// length, and all of them are zero exactly when the view is zero.
    pub proof fn lemma_coordinates(self)
        ensures
            sum_of_squares(self.coordinates()) == self@.length_squared(),
            all_zero(self.coordinates()) <==> self@.is_zero(),
    {
        let s0 = Seq::<int>::empty();
        let s1 = s0.push(self.w as int);
        lemma_sum_of_squares_push(s0, self.w as int);
        assert(self.coordinates() =~= s1);
        lemma_zero_vector(Vector::zero());
        if self@.is_zero() {
            assert(all_zero(self.coordinates()));
        }
        if all_zero(self.coordinates()) {
            assert(self.coordinates()[0] == 0);
        }
    }
}

} // verus!
