//! Flat row-major pixel-style buffers in two and three dimensions, with
//! checked accessors and unchecked ones whose callers must stay in bounds.

use vstd::prelude::*;

verus! {

/// A `width` by `height` grid stored row-major in one flat vector.
pub struct Buffer2<T> {
    pub data: Vec<T>,
    pub clear_value: T,
    pub width: usize,
    pub height: usize,
}

impl<T: Clone + Copy> Buffer2<T> {
    /// The storage holds exactly one element per grid cell.
    pub open spec fn wf(&self) -> bool {
        self.data@.len() == self.width * self.height
    }

    /// The flat index of the cell `(x, y)`.
    pub open spec fn index_spec(&self, x: int, y: int) -> int {
        self.width * y + x
    }

    /// A buffer with `clear_value` in every cell.
    pub fn new(width: usize, height: usize, clear_value: T) -> (r: Self)
        requires
            width * height <= usize::MAX,
        ensures
            r.wf(),
            r.width == width,
            r.height == height,
            r.clear_value == clear_value,
            forall|i: int| 0 <= i < r.data@.len() ==> r.data@[i] == clear_value,
    {
        let total = width * height;
        let mut data: Vec<T> = Vec::new();
        let mut i: usize = 0;
        while i < total
            invariant
                i <= total,
                data@.len() == i,
                forall|k: int| 0 <= k < i ==> data@[k] == clear_value,
            decreases total - i,
        {
            data.push(clear_value);
            i += 1;
        }
        Self { data, clear_value, width, height }
    }

    /// Reset every cell to the clear value.
    pub fn clear(&mut self)
        requires
            old(self).wf(),
        ensures
            final(self).wf(),
            final(self).width == old(self).width,
            final(self).height == old(self).height,
            final(self).clear_value == old(self).clear_value,
            forall|i: int|
                0 <= i < final(self).data@.len() ==> final(self).data@[i] == old(self).clear_value,
    {
        let total = self.data.len();
        let mut i: usize = 0;
        while i < total
            invariant
                i <= total,
                self.data@.len() == total,
                self.width == old(self).width,
                self.height == old(self).height,
                self.clear_value == old(self).clear_value,
                old(self).wf(),
                total == old(self).data@.len(),
                forall|k: int| 0 <= k < i ==> self.data@[k] == self.clear_value,
            decreases total - i,
        {
            let v = self.clear_value;
            self.data[i] = v;
            i += 1;
        }
    }

    /// Whether `(x, y)` lies inside the grid.
    pub fn inbounds(&self, x: usize, y: usize) -> (r: bool)
        ensures
            r == (x < self.width && y < self.height),
    {
        x < self.width && y < self.height
    }

    /// The flat index of an in-bounds cell.
    fn index(&self, x: usize, y: usize) -> (r: usize)
        requires
            self.wf(),
            x < self.width,
            y < self.height,
        ensures
            r == self.index_spec(x as int, y as int),
            r < self.data@.len(),
    {
        let bound = self.data.len();
        proof {
            assert(self.width * y + x < self.width * self.height) by (nonlinear_arith)
                requires
                    x < self.width,
                    y < self.height,
            ;
            assert(self.width * self.height == bound);
        }
        self.width * y + x
    }

    /// The cell at `(x, y)`, or nothing when it is out of bounds.
    pub fn get(&self, x: usize, y: usize) -> (r: Option<T>)
        requires
            self.wf(),
        ensures
            (r is Some) <==> (x < self.width && y < self.height),
            r matches Some(v) ==> v == self.data@[self.index_spec(x as int, y as int)],
    {
        if !self.inbounds(x, y) {
            return None;
        }
        let index = self.index(x, y);
        Some(self.data[index])
    }

    /// The cell at `(x, y)`, which must be in bounds.
    pub fn get_unchecked(&self, x: usize, y: usize) -> (r: T)
        requires
            self.wf(),
            x < self.width,
            y < self.height,
        ensures
            r == self.data@[self.index_spec(x as int, y as int)],
    {
        let index = self.index(x, y);
        self.data[index]
    }

    /// Store `data` at `(x, y)`; reports nothing when it is out of
    /// bounds, in which case the buffer is unchanged.
    pub fn set(&mut self, x: usize, y: usize, data: T) -> (r: Option<()>)
        requires
            old(self).wf(),
        ensures
            (r is Some) <==> (x < old(self).width && y < old(self).height),
            r is Some ==> final(self).data@ == old(self).data@.update(
                old(self).index_spec(x as int, y as int),
                data,
            ),
            r is None ==> final(self).data@ == old(self).data@,
            final(self).width == old(self).width,
            final(self).height == old(self).height,
            final(self).clear_value == old(self).clear_value,
    {
        if !self.inbounds(x, y) {
            return None;
        }
        let index = self.index(x, y);
        self.data[index] = data;
        Some(())
    }

    /// Store `data` at `(x, y)`, which must be in bounds.
    pub fn set_unchecked(&mut self, x: usize, y: usize, data: T)
        requires
            old(self).wf(),
            x < old(self).width,
            y < old(self).height,
        ensures
            final(self).data@ == old(self).data@.update(
                old(self).index_spec(x as int, y as int),
                data,
            ),
            final(self).width == old(self).width,
            final(self).height == old(self).height,
            final(self).clear_value == old(self).clear_value,
    {
        let index = self.index(x, y);
        self.data[index] = data;
    }
}

/// A `width` by `height` by `depth` grid stored row-major in one flat
/// vector.
pub struct Buffer3<T> {
    pub data: Vec<T>,
    pub clear_value: T,
    pub width: usize,
    pub height: usize,
    pub depth: usize,
}

impl<T: Clone + Copy> Buffer3<T> {
    /// The storage holds exactly one element per grid cell.
    pub open spec fn wf(&self) -> bool {
        self.data@.len() == self.width * self.height * self.depth
    }

    /// The flat index of the cell `(x, y, z)`.
    pub open spec fn index_spec(&self, x: int, y: int, z: int) -> int {
        self.width * self.height * z + self.width * y + x
    }

    /// A buffer with `clear_value` in every cell.
    pub fn new(width: usize, height: usize, depth: usize, clear_value: T) -> (r: Self)
        requires
            width * height * depth <= usize::MAX,
        ensures
            r.wf(),
            r.width == width,
            r.height == height,
            r.depth == depth,
            r.clear_value == clear_value,
            forall|i: int| 0 <= i < r.data@.len() ==> r.data@[i] == clear_value,
    {
        proof {
            assert(width * height <= width * height * depth || depth == 0) by (nonlinear_arith);
            assert(depth == 0 ==> width * height * depth == 0) by (nonlinear_arith);
        }
        let plane = if depth == 0 {
            0
        } else {
            width * height
        };
        let total = plane * depth;
        proof {
            assert(plane * depth == width * height * depth) by (nonlinear_arith)
                requires
                    depth == 0 ==> plane == 0,
                    depth != 0 ==> plane == width * height,
            ;
        }
        let mut data: Vec<T> = Vec::new();
        let mut i: usize = 0;
        while i < total
            invariant
                i <= total,
                data@.len() == i,
                forall|k: int| 0 <= k < i ==> data@[k] == clear_value,
            decreases total - i,
        {
            data.push(clear_value);
            i += 1;
        }
        Self { data, clear_value, width, height, depth }
    }

    /// Reset every cell to the clear value.
    pub fn clear(&mut self)
        requires
            old(self).wf(),
        ensures
            final(self).wf(),
            final(self).width == old(self).width,
            final(self).height == old(self).height,
            final(self).depth == old(self).depth,
            final(self).clear_value == old(self).clear_value,
            forall|i: int|
                0 <= i < final(self).data@.len() ==> final(self).data@[i] == old(self).clear_value,
    {
        let total = self.data.len();
        let mut i: usize = 0;
        while i < total
            invariant
                i <= total,
                self.data@.len() == total,
                self.width == old(self).width,
                self.height == old(self).height,
                self.depth == old(self).depth,
                self.clear_value == old(self).clear_value,
                old(self).wf(),
                total == old(self).data@.len(),
                forall|k: int| 0 <= k < i ==> self.data@[k] == self.clear_value,
            decreases total - i,
        {
            let v = self.clear_value;
            self.data[i] = v;
            i += 1;
        }
    }

    /// Whether `(x, y, z)` lies inside the grid.
    pub fn inbounds(&self, x: usize, y: usize, z: usize) -> (r: bool)
        ensures
            r == (x < self.width && y < self.height && z < self.depth),
    {
        x < self.width && y < self.height && z < self.depth
    }

    /// The flat index of an in-bounds cell.
    fn index(&self, x: usize, y: usize, z: usize) -> (r: usize)
        requires
            self.wf(),
            x < self.width,
            y < self.height,
            z < self.depth,
        ensures
            r == self.index_spec(x as int, y as int, z as int),
            r < self.data@.len(),
    {
        let bound = self.data.len();
        proof {
            assert(self.width * self.height * z + self.width * y + x < self.width * self.height
                * self.depth) by (nonlinear_arith)
                requires
                    x < self.width,
                    y < self.height,
                    z < self.depth,
            ;
            assert(self.width * self.height <= self.width * self.height * self.depth)
                by (nonlinear_arith)
                requires
                    z < self.depth,
            ;
            assert(self.width * self.height * self.depth == bound);
        }
        self.width * self.height * z + self.width * y + x
    }

    /// The cell at `(x, y, z)`, or nothing when it is out of bounds.
    pub fn get(&self, x: usize, y: usize, z: usize) -> (r: Option<T>)
        requires
            self.wf(),
        ensures
            (r is Some) <==> (x < self.width && y < self.height && z < self.depth),
            r matches Some(v) ==> v == self.data@[self.index_spec(x as int, y as int, z as int)],
    {
        if !self.inbounds(x, y, z) {
            return None;
        }
        let index = self.index(x, y, z);
        Some(self.data[index])
    }

    /// The cell at `(x, y, z)`, which must be in bounds.
    pub fn get_unchecked(&self, x: usize, y: usize, z: usize) -> (r: T)
        requires
            self.wf(),
            x < self.width,
            y < self.height,
            z < self.depth,
        ensures
            r == self.data@[self.index_spec(x as int, y as int, z as int)],
    {
        let index = self.index(x, y, z);
        self.data[index]
    }

    /// Store `data` at `(x, y, z)`; reports nothing when it is out of
    /// bounds, in which case the buffer is unchanged.
    pub fn set(&mut self, x: usize, y: usize, z: usize, data: T) -> (r: Option<()>)
        requires
            old(self).wf(),
        ensures
            (r is Some) <==> (x < old(self).width && y < old(self).height && z < old(self).depth),
            r is Some ==> final(self).data@ == old(self).data@.update(
                old(self).index_spec(x as int, y as int, z as int),
                data,
            ),
            r is None ==> final(self).data@ == old(self).data@,
            final(self).width == old(self).width,
            final(self).height == old(self).height,
            final(self).depth == old(self).depth,
            final(self).clear_value == old(self).clear_value,
    {
        if !self.inbounds(x, y, z) {
            return None;
        }
        let index = self.index(x, y, z);
        self.data[index] = data;
        Some(())
    }

    /// Store `data` at `(x, y, z)`, which must be in bounds.
    pub fn set_unchecked(&mut self, x: usize, y: usize, z: usize, data: T)
        requires
            old(self).wf(),
            x < old(self).width,
            y < old(self).height,
            z < old(self).depth,
        ensures
            final(self).data@ == old(self).data@.update(
                old(self).index_spec(x as int, y as int, z as int),
                data,
            ),
            final(self).width == old(self).width,
            final(self).height == old(self).height,
            final(self).depth == old(self).depth,
            final(self).clear_value == old(self).clear_value,
    {
        let index = self.index(x, y, z);
        self.data[index] = data;
    }
}

} // verus!
