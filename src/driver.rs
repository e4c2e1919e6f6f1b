use vstd::prelude::*;

verus! {

/// A device driver.
pub trait DeviceDriver {
    /// The driver's compatibility string.
    fn compatible(&self) -> &'static str;

    /// Brings the device up.
    fn init(&self) -> Result<(), &'static str> {
        Ok(())
    }
}

/// The board's set of drivers, in the order they are brought up.
pub trait DriverManager {
    /// How many drivers the board has.
    fn num_device_drivers(&self) -> usize;

    /// The compatibility string of driver `i`.
    fn device_driver_compatible(&self, i: usize) -> &'static str;

    /// Brings driver `i` up.
    fn init_device_driver(&self, i: usize) -> Result<(), &'static str>;

    /// Board set-up that needs every driver up.
    fn post_device_driver_init(&self);
}

/// Runs the initializers of `num_drivers` drivers strictly in list order,
/// `init(i)` for driver `i`, and stops at the first that fails, returning its
/// index and message. Only when all succeed does it run `post_init`.
pub fn init_drivers<F: Fn(usize) -> Result<(), &'static str>, P: FnOnce()>(
    num_drivers: usize,
    init: F,
    post_init: P,
) -> (r: Result<(), (usize, &'static str)>)
    requires
        forall|i: usize| i < num_drivers ==> init.requires((i,)),
        post_init.requires(()),
    ensures
        r is Ok ==> forall|i: usize| i < num_drivers ==> init.ensures((i,), Ok::<(), &'static str>(())),
        r is Ok ==> post_init.ensures((), ()),
        r is Err ==> {
            let (failed, msg) = r->Err_0;
            &&& failed < num_drivers
            &&& init.ensures((failed,), Err::<(), &'static str>(msg))
            &&& forall|i: usize| i < failed ==> init.ensures((i,), Ok::<(), &'static str>(()))
        },
{
    let mut i: usize = 0;
    while i < num_drivers
        invariant
            i <= num_drivers,
            forall|k: usize| k < num_drivers ==> init.requires((k,)),
            forall|k: usize| k < i ==> init.ensures((k,), Ok::<(), &'static str>(())),
        decreases num_drivers - i,
    {
        let res = init(i);
        match res {
            Ok(u) => {
                assert(u == ());
                assert(res == Ok::<(), &'static str>(()));
            },
            Err(msg) => {
                return Err((i, msg));
            },
        }
        i = i + 1;
    }
    post_init();
    Ok(())
}

} // verus!
