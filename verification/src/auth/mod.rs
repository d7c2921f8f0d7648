pub mod keystone;
