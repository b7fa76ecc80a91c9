use rust_analysis_engine::parser::typescript::TypeScriptParser;
use rust_analysis_engine::parser::SourceParser;
use rust_analysis_engine::types::Language as EngineLanguage;

#[test]
fn test_parse_typescript_function() {
    let parser = TypeScriptParser::new().unwrap();
    let content = "function greet(name: string): string { return `Hello, ${name}!`; }";
    
    let result = parser.parse(content).unwrap();
    
    assert_eq!(result.functions.len(), 1);
    assert_eq!(result.functions[0].name, "greet");
    assert_eq!(result.functions[0].line, 1);
    assert_eq!(result.functions[0].complexity, 1);
}

#[test]
fn test_parse_typescript_interface() {
    let parser = TypeScriptParser::new().unwrap();
    let content = r#"
        interface User {
            id: number;
            name: string;
            email?: string;
            getName(): string;
        }
    "#;
    
    let result = parser.parse(content).unwrap();
    
    // Interface should be counted as a class
    assert_eq!(result.classes.len(), 1);
    assert_eq!(result.classes[0].name, "User");
    
    // Method signature should be counted as a function
    assert_eq!(result.functions.len(), 1);
    assert_eq!(result.functions[0].name, "getName");
}

#[test]
fn test_parse_typescript_class_with_types() {
    let parser = TypeScriptParser::new().unwrap();
    let content = r#"
        class Calculator<T extends number> {
            private value: T;
            
            constructor(initialValue: T) {
                this.value = initialValue;
            }
            
            add(operand: T): T {
                return this.value + operand;
            }
            
            async fetchData(): Promise<T[]> {
                const response = await fetch('/api/data');
                return response.json();
            }
        }
    "#;
    
    let result = parser.parse(content).unwrap();
    
    assert_eq!(result.classes.len(), 1);
    assert_eq!(result.classes[0].name, "Calculator");
    
    // Should find constructor, add, and fetchData methods
    assert_eq!(result.functions.len(), 3);
    
    let function_names: Vec<&String> = result.functions.iter().map(|f| &f.name).collect();
    assert!(function_names.contains(&&"constructor".to_string()));
    assert!(function_names.contains(&&"add".to_string()));
    assert!(function_names.contains(&&"fetchData".to_string()));
}

#[test]
fn test_parse_typescript_imports() {
    let parser = TypeScriptParser::new().unwrap();
    let content = r#"
        import React, { Component } from 'react';
        import type { User } from './types';
        import * as utils from './utils';
        export { Calculator } from './calculator';
        const fs = require('fs');
    "#;
    
    let result = parser.parse(content).unwrap();
    
    assert_eq!(result.imports.len(), 5);
    
    let modules: Vec<&String> = result.imports.iter().map(|i| &i.module).collect();
    assert!(modules.contains(&&"react".to_string()));
    assert!(modules.contains(&&"./types".to_string()));
    assert!(modules.contains(&&"./utils".to_string()));
    assert!(modules.contains(&&"./calculator".to_string()));
    assert!(modules.contains(&&"fs".to_string()));
}

#[test]
fn test_parse_typescript_generics() {
    let parser = TypeScriptParser::new().unwrap();
    let content = r#"
        function identity<T>(arg: T): T {
            return arg;
        }
        
        interface Repository<T> {
            findById(id: string): Promise<T | null>;
            save(entity: T): Promise<T>;
        }
        
        class GenericClass<T, U extends string> {
            process(input: T): U {
                return input as unknown as U;
            }
        }
    "#;
    
    let result = parser.parse(content).unwrap();
    
    // Should find function, interface methods, and class method
    assert!(result.functions.len() >= 3);
    assert_eq!(result.classes.len(), 2); // Interface and class
    
    let function_names: Vec<&String> = result.functions.iter().map(|f| &f.name).collect();
    assert!(function_names.contains(&&"identity".to_string()));
    assert!(function_names.contains(&&"process".to_string()));
}

#[test]
fn test_parse_typescript_enums_and_types() {
    let parser = TypeScriptParser::new().unwrap();
    let content = r#"
        enum Color {
            Red = "red",
            Green = "green",
            Blue = "blue"
        }
        
        type Status = "pending" | "completed" | "failed";
        
        type UserWithStatus = User & {
            status: Status;
            color: Color;
        };
    "#;
    
    let result = parser.parse(content).unwrap();
    
    // Enums and types don't count as classes in our current implementation
    // but they are parsed successfully
    assert!(result.language == EngineLanguage::TypeScript);
}

#[test]
fn test_typescript_complexity_with_types() {
    let parser = TypeScriptParser::new().unwrap();
    let content = r#"
        function processUser<T extends User>(
            user: T, 
            options: ProcessOptions
        ): Promise<ProcessResult<T>> {
            if (user.isActive) {
                for (const permission of user.permissions) {
                    if (permission.type === 'admin') {
                        return Promise.resolve({
                            success: true,
                            data: user
                        });
                    } else if (permission.type === 'user') {
                        return Promise.resolve({
                            success: true,
                            data: { ...user, limited: true }
                        });
                    }
                }
            } else {
                throw new Error('User is not active');
            }
            
            return Promise.reject(new Error('No valid permissions'));
        }
    "#;
    
    let result = parser.parse(content).unwrap();
    
    assert_eq!(result.functions.len(), 1);
    assert_eq!(result.functions[0].name, "processUser");
    // Should have complexity > 1 due to if statements and for loop
    assert!(result.functions[0].complexity > 3);
}
