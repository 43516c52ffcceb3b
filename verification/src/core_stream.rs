//! Stream values that name one property source of the Core for the Link bridge.
use vstd::prelude::*;
use std::marker::PhantomData;

verus! {

/// Describes one stream property that the Link bridge can subscribe to. The
/// property's arguments are carried in their encoded form.
#[derive(Clone, Debug, PartialEq, Eq)]
pub struct CoreStreamDescriptor {
    /// Identifies one logical stream independently from its current source.
    pub streamId: String,
    pub targetPath: String,
    pub propertyName: String,
    pub args: String,
}

/// A stream of items of type `T` backed by one Core property source.
#[derive(Debug)]
pub struct CoreStream<T> {
    pub descriptor: CoreStreamDescriptor,
    pub marker: PhantomData<T>,
}

impl<T> CoreStream<T> {
    /// Creates a stream value backed by one explicit Core property source.
    pub fn new_at(streamId: String, targetPath: String, propertyName: String, args: String) -> (r: Self)
        ensures
            r.descriptor.streamId@ == streamId@,
            r.descriptor.targetPath@ == targetPath@,
            r.descriptor.propertyName@ == propertyName@,
            r.descriptor.args@ == args@,
    {
        CoreStream {
            descriptor: CoreStreamDescriptor { streamId, targetPath, propertyName, args },
            marker: PhantomData,
        }
    }

    /// Whether two streams read the same source, whatever their item types.
    pub fn same_source<U>(&self, other: &CoreStream<U>) -> (r: bool)
        ensures
            r == (self.descriptor.streamId@ == other.descriptor.streamId@
                && self.descriptor.targetPath@ == other.descriptor.targetPath@
                && self.descriptor.propertyName@ == other.descriptor.propertyName@
                && self.descriptor.args@ == other.descriptor.args@),
    {
        crate::text::str_eq(self.descriptor.streamId.as_str(), other.descriptor.streamId.as_str())
            && crate::text::str_eq(self.descriptor.targetPath.as_str(), other.descriptor.targetPath.as_str())
            && crate::text::str_eq(self.descriptor.propertyName.as_str(), other.descriptor.propertyName.as_str())
            && crate::text::str_eq(self.descriptor.args.as_str(), other.descriptor.args.as_str())
    }
}

} // verus!
