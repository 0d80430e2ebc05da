use vstd::prelude::*;

verus! {

/// Where the view stands on the map, in pixels.
#[derive(Copy, Clone, Debug)]
pub struct Camera {
    position: [u32; 2],
}

impl View for Camera {
    type V = Seq<u32>;

    closed spec fn view(&self) -> Seq<u32> {
        self.position@
    }
}

impl Camera {
    pub fn new(position: [u32; 2]) -> (camera: Camera)
        ensures
            camera@ == position@,
    {
        Camera { position }
    }

    pub fn position(&self) -> (position: [u32; 2])
        ensures
            position@ == self@,
    {
        self.position
    }
}

impl Default for Camera {
    /// The camera at the origin.
    fn default() -> (camera: Camera)
        ensures
            camera@ == seq![0u32, 0u32],
    {
        let camera = Camera { position: [0, 0] };
        assert(camera@ =~= seq![0u32, 0u32]);
        camera
    }
}

} // verus!
